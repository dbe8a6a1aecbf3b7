//! What an inspection tells, how lines of a log look, and what the listing says of projects.

use crate::app::{is_small, route_after, Route};
use crate::compose::{command_result, project_of, projects_of};
use crate::containers::inspect::{InspectInfo, InspectMount, InspectNetwork};
use crate::json::JsonView;
use crate::log_line::{level_look, stamp_end};
use crate::output::CommandOutput;
use crate::text;
use crate::theme::{Color, Style, Theme};
use vstd::prelude::*;

verus! {

proof fn held_in_joined(l: Seq<Seq<char>>, i: int)
    requires
        0 <= i < l.len(),
    ensures
        text::holds(text::joined(l, Seq::empty()), l[i]),
    decreases l.len(),
{
    let none = Seq::<char>::empty();
    let whole = text::joined(l, none);
    if l.len() == 1 {
        assert(whole == l[0]);
        assert(whole.subrange(0, whole.len() as int) == whole);
        assert(text::occurs_at(whole, l[0], 0));
    } else {
        let head = text::joined(l.drop_last(), none);
        assert(whole == head + none + l.last());
        assert(head + none == head);
        if i == l.len() - 1 {
            assert(whole.subrange(head.len() as int, whole.len() as int) == l[i]);
            assert(text::occurs_at(whole, l[i], head.len() as int));
        } else {
            held_in_joined(l.drop_last(), i);
            assert(l.drop_last()[i] == l[i]);
            let k = choose|k: int| #[trigger] text::occurs_at(head, l[i], k);
            assert(whole.subrange(k, k + l[i].len()) == head.subrange(k, k + l[i].len()));
            assert(text::occurs_at(whole, l[i], k));
        }
    }
}

/// The details of a container tell its name, its id, its image and when it was started, each on
/// a line of its own.
pub proof fn details_tell_what_it_is(
    ins: InspectInfo,
    name: Seq<char>,
    id: String,
    image: String,
    started: String,
)
    requires
        ins.id == Some(id),
        ins.image == Some(image),
        ins.started == Some(started),
    ensures
        text::holds(ins.text(name), "# "@ + name + "\n\n"@),
        text::holds(ins.text(name), "ID      : "@ + id@ + "\n"@),
        text::holds(ins.text(name), "Image   : "@ + image@ + "\n"@),
        text::holds(ins.text(name), "Started : "@ + started@ + "\n"@),
{
    let l = ins.head_lines(name) + ins.env_lines() + ins.network_lines() + ins.mount_lines()
        + ins.port_lines();
    assert(l[0] == "# "@ + name + "\n\n"@);
    assert(l[1] == "ID      : "@ + id@ + "\n"@);
    assert(l[2] == "Image   : "@ + image@ + "\n"@);
    assert(l[4] == "Started : "@ + started@ + "\n"@);
    held_in_joined(l, 0);
    held_in_joined(l, 1);
    held_in_joined(l, 2);
    held_in_joined(l, 4);
}

/// They tell the state, whether the container runs, and when it ended if it does not.
pub proof fn details_tell_the_state(
    ins: InspectInfo,
    name: Seq<char>,
    status: String,
    health: String,
    finished: String,
)
    requires
        ins.status == Some(status),
        ins.health == Some(health),
        ins.finished == Some(finished),
    ensures
        ins.running == Some(true) ==> text::holds(
            ins.text(name),
            "State   : "@ + status@ + "  (running="@ + "true"@ + ", health="@ + health@ + ")\n"@,
        ),
        ins.running != Some(true) ==> text::holds(
            ins.text(name),
            "State   : "@ + status@ + "  (running="@ + "false"@ + ", health="@ + health@ + ")\n"@,
        ) && text::holds(ins.text(name), "Finished: "@ + finished@ + "\n"@),
{
    let l = ins.head_lines(name) + ins.env_lines() + ins.network_lines() + ins.mount_lines()
        + ins.port_lines();
    held_in_joined(l, 3);
    assert(l[3] == ins.head_lines(name)[3]);
    if ins.running != Some(true) {
        held_in_joined(l, 5);
        assert(l[5] == ins.head_lines(name)[5]);
    }
}

/// They tell each of the first forty variables of the environment, each network with its address,
/// and each mount with its two ends.
pub proof fn details_tell_the_surroundings(
    ins: InspectInfo,
    name: Seq<char>,
    env: Vec<String>,
    networks: Vec<InspectNetwork>,
    mounts: Vec<InspectMount>,
    i: int,
    ip: String,
    gw: String,
    typ: String,
    from: String,
    to: String,
)
    requires
        ins.env == Some(env),
        ins.networks == Some(networks),
        ins.mounts == Some(mounts),
        0 <= i,
    ensures
        i < env@.len() && i < 40 ==> text::holds(ins.text(name), "- "@ + env@[i]@ + "\n"@),
        i < networks@.len() && networks@[i].ip == Some(ip) && networks@[i].gateway == Some(gw)
            ==> text::holds(
            ins.text(name),
            "- "@ + networks@[i].name@ + ": ip="@ + ip@ + " gw="@ + gw@ + "\n"@,
        ),
        i < mounts@.len() && mounts@[i].typ == Some(typ) && mounts@[i].source == Some(from)
            && mounts@[i].destination == Some(to) ==> text::holds(
            ins.text(name),
            "- ["@ + typ@ + "] "@ + from@ + " → "@ + to@ + "\n"@,
        ),
{
    let a = ins.head_lines(name);
    let b = ins.env_lines();
    let c = ins.network_lines();
    let d = ins.mount_lines();
    let e = ins.port_lines();
    let l = a + b + c + d + e;
    if i < env@.len() && i < 40 {
        let k = a.len() + 1 + i;
        assert(b[1 + i] == "- "@ + env@[i]@ + "\n"@);
        assert(l[k] == b[1 + i]);
        held_in_joined(l, k);
    }
    if i < networks@.len() {
        let k = a.len() + b.len() + 1 + i;
        assert(l[k] == c[1 + i]);
        held_in_joined(l, k);
    }
    if i < mounts@.len() {
        let k = a.len() + b.len() + c.len() + 1 + i;
        assert(l[k] == d[1 + i]);
        held_in_joined(l, k);
    }
}

/* ---------------- lines of a log ---------------- */

/// Lines that tell of an error stand out in red, warnings in yellow, and what is only for
/// debugging is grey; all others look as the text does.
pub proof fn levels_have_colours(a: Seq<char>, b: Seq<char>, lower: Seq<char>, theme: Theme)
    ensures
        level_look(a + "error"@ + b, theme) == (Style {
            fg: Some(Color::Red),
            bg: None,
            bold: true,
            dim: false,
        }),
        !text::holds(lower, "error"@) && !text::holds(lower, " level=error"@) && !text::holds(
            lower,
            " err "@,
        ) && !text::holds(lower, " e "@) ==> {
            &&& text::holds(lower, "warn"@) ==> level_look(lower, theme).fg == Some(Color::Yellow)
            &&& !text::holds(lower, "warn"@) && !text::holds(lower, " level=warn"@) ==> {
                &&& text::holds(lower, "debug"@) ==> level_look(lower, theme).fg == Some(
                    Color::DarkGray,
                )
                &&& text::holds(lower, "trace"@) ==> level_look(lower, theme).fg == Some(
                    Color::DarkGray,
                )
                &&& !text::holds(lower, "debug"@) && !text::holds(lower, "trace"@) ==> level_look(
                    lower,
                    theme,
                ).fg == Some(theme.fg)
            }
        },
{
    crate::laws::text::texts_are_found(a, "error"@, b);
}

/// A date and a time at the start of a line are its timestamp, up to the blank behind them; a line
/// that begins with anything but a digit has none.
pub proof fn timestamps_are_seen(s: Seq<char>)
    requires
        s.len() > 19,
    ensures
        !('0' <= s[0] <= '9') ==> stamp_end(s) is None,
        ('0' <= s[0] <= '9') && ('0' <= s[1] <= '9') && ('0' <= s[2] <= '9') && ('0' <= s[3] <= '9')
            && s[4] == '-' && ('0' <= s[5] <= '9') && ('0' <= s[6] <= '9') && s[7] == '-' && ('0'
            <= s[8] <= '9') && ('0' <= s[9] <= '9') && s[10] == 'T' && ('0' <= s[11] <= '9') && ('0'
            <= s[12] <= '9') && s[13] == ':' && ('0' <= s[14] <= '9') && ('0' <= s[15] <= '9')
            && s[16] == ':' && ('0' <= s[17] <= '9') && ('0' <= s[18] <= '9') && s[19] == ' '
            ==> stamp_end(s) == Some(19int),
{
}

/* ---------------- projects ---------------- */

/// An entry of the listing makes a project of the name and the status that it tells.
pub proof fn entries_make_projects(
    entry: JsonView,
    name: Seq<char>,
    status: Seq<char>,
    dir: Seq<char>,
)
    requires
        entry.member("Name"@) == Some(JsonView::Text(name)),
        entry.member("Status"@) == Some(JsonView::Text(status)),
        name.len() > 0,
        status.len() > 0,
    ensures
        project_of(entry).name == name,
        project_of(entry).status == Some(status),
        entry.member("ConfigFiles"@) is None && entry.member("WorkingDir"@) == Some(
            JsonView::Text(dir),
        ) && dir.len() > 0 ==> project_of(entry).path == dir && project_of(entry).file_name
            == "docker-compose.yml"@,
        projects_of(JsonView::List(seq![entry])).len() == 1,
        projects_of(JsonView::List(seq![entry]))[0] == project_of(entry),
        projects_of(JsonView::Null).len() == 0,
{
    let none = Seq::<char>::empty();
    let p = text::parts(none, ',');
    assert(p == seq![none]);
    assert(p.drop_last().len() == 0);
    assert(p.last() == none);
    assert(text::trimmed(none).len() == 0);
    assert(crate::compose::first_filled(p.drop_last()) is None);
    assert(crate::compose::first_filled(p) is None);
    assert(seq![entry][0] == entry);
}

/// A command on a project gave what it wrote, if it succeeded; if not, an error that holds what it
/// wrote.
pub proof fn failed_commands_are_errors(out: CommandOutput)
    ensures
        out.success ==> command_result(Ok(out)) == Ok::<Seq<char>, Seq<char>>(
            crate::output::lossy(out.stdout@) + crate::output::lossy(out.stderr@),
        ),
        !out.success ==> (command_result(Ok(out)) matches Err(e) && text::holds(
            e,
            crate::output::lossy(out.stdout@) + crate::output::lossy(out.stderr@),
        )),
{
    if !out.success {
        let head = "docker compose failed (code="@ + crate::output::code_text(out.code) + "): "@;
        let t = out.all_text();
        assert(head + t + Seq::<char>::empty() == head + t);
        crate::laws::text::texts_are_found(head, t, Seq::empty());
    }
}

/* ---------------- the program ---------------- */

/// A terminal of seventy by twenty-eight cells or more is large enough, and no smaller one.
pub proof fn large_enough_terminals(width: u16, height: u16)
    ensures
        is_small(width, height) <==> !(width >= 70 && height >= 28),
        route_after(Route::Splash, true, true) == Route::Main,
        route_after(Route::Splash, false, true) == Route::Splash,
        route_after(Route::Splash, true, false) == Route::Splash,
        route_after(Route::Main, false, false) == Route::Main,
{
}

} // verus!
