//! What the panes over the tabs show: a pull, the statistics, and sizes and ages.

use crate::json::JsonView;
use crate::key::KeyCode;
use crate::laws::keys::pressed;
use crate::pull::{PullEventView, PullModel};
use crate::stats::{reading_of, totals_of, CpuBasis, StatsModel, Totals};
use crate::text;
use crate::units::{age_text, grain, nearest, significant, size_text};
use vstd::prelude::*;

verus! {

/* ---------------- a pull ---------------- */

/// A report with a key takes the place of the one with that key before; the lines of other keys
/// stay. A report without a key, or with a new one, stands behind the others.
pub proof fn reports_keep_their_lines(
    p: PullModel,
    k: Seq<char>,
    l: Seq<char>,
    a: Seq<char>,
    b: Seq<char>,
    c: Seq<char>,
)
    requires
        k != l,
        p.index == Map::<Seq<char>, usize>::empty(),
        p.screen.lines.len() + 2 < usize::MAX,
    ensures
        ({
            let q = p.on_event(PullEventView::Line { key: Some(k), text: a }).on_event(
                PullEventView::Line { key: Some(l), text: b },
            ).on_event(PullEventView::Line { key: Some(k), text: c });
            q.screen.lines == p.screen.lines.push(c).push(b)
        }),
        p.on_event(PullEventView::Line { key: None, text: a }).screen.lines == p.screen.lines.push(a),
{
    let n = p.screen.lines.len() as int;
    let one = p.on_event(PullEventView::Line { key: Some(k), text: a });
    let two = one.on_event(PullEventView::Line { key: Some(l), text: b });
    assert(one.screen.lines == p.screen.lines.push(a));
    assert(!one.index.contains_key(l));
    assert(two.screen.lines == p.screen.lines.push(a).push(b));
    assert(two.index[k] == n);
    assert(p.screen.lines.push(a).push(b).update(n, c) == p.screen.lines.push(c).push(b));
}

/// A pull is told to have gone as its end says, and its title and border say so.
pub proof fn end_of_a_pull_is_shown(
    p: PullModel,
    ok: bool,
    summary: Seq<char>,
    theme: crate::theme::Theme,
    tick: u64,
)
    ensures
        ({
            let q = p.on_event(PullEventView::Done { ok, summary });
            &&& q.finished == Some(ok)
            &&& q.summary == summary
            &&& q.screen == p.screen
            &&& q.border(theme) == (if ok {
                theme.ok
            } else {
                theme.err
            })
            &&& q.heading(tick) == (if ok {
                "✅ "@
            } else {
                "❌ "@
            }) + p.title
        }),
        p.finished is None ==> p.border(theme) == theme.accent,
        p.started(summary).visible,
        p.started(summary).finished is None,
        p.started(summary).screen.lines.len() == 0,
        p.started(summary).title == summary,
{
}

/// Exactly as many lines lie below those that are shown as the pull is scrolled up. Up shows one
/// line more above, Down goes back, and Home and End lead to the first line and to the last.
pub proof fn pull_is_scrolled(p: PullModel, rows: int)
    requires
        rows > 0,
        p.scroll + 1 < p.screen.lines.len() <= usize::MAX,
    ensures
        ({
            let (start, end) = p.window(rows);
            let up = p.on_key(pressed(KeyCode::Up));
            &&& p.screen.lines.len() - end == p.scroll
            &&& 0 <= start <= end
            &&& end - start <= rows
            &&& end - start < rows ==> start == 0
            &&& up.window(rows).1 == end - 1
            &&& up.on_key(pressed(KeyCode::Down)).window(rows) == p.window(rows)
            &&& p.on_key(pressed(KeyCode::Home)).window(1) == (0int, 1int)
            &&& p.on_key(pressed(KeyCode::End)).window(rows).1 == p.screen.lines.len()
            &&& !p.on_key(pressed(KeyCode::Esc)).visible
            &&& !p.on_key(pressed(KeyCode::Char('q'))).visible
            &&& p.on_key(pressed(KeyCode::Up)).visible == p.visible
        }),
{
}

/* ---------------- the statistics ---------------- */

/// What a sample names as memory in use, its limit and the processors is what is read.
pub proof fn samples_are_read(j: JsonView, last: Option<Totals>, n: u64)
    ensures
        j.at(seq!["memory_stats"@, "usage"@]) == Some(JsonView::Number(Some(n))) ==> reading_of(
            j,
            last,
        ).usage == n,
        j.at(seq!["memory_stats"@, "limit"@]) == Some(JsonView::Number(Some(n))) ==> reading_of(
            j,
            last,
        ).limit == n,
        j.at(seq!["memory_stats"@, "stats"@, "inactive_file"@]) == Some(
            JsonView::Number(Some(n)),
        ) && n > 0 ==> reading_of(j, last).cached == n,
        j.at(seq!["cpu_stats"@, "online_cpus"@]) == Some(JsonView::Number(Some(n))) && n > 0
            ==> reading_of(j, last).ncpu == n,
        j.at(seq!["cpu_stats"@, "cpu_usage"@, "total_usage"@]) == Some(JsonView::Number(Some(n)))
            ==> totals_of(j).cpu == n,
{
}

/// The processors' share is told from what the sample says of itself and of the sample before it;
/// where it says nothing of the one before, from what was kept.
pub proof fn processor_share_is_told(
    j: JsonView,
    p: Totals,
    total: u64,
    before: u64,
    system: u64,
    system_before: u64,
)
    requires
        before > 0,
        system > 0,
        system_before > 0,
        j.at(seq!["cpu_stats"@, "cpu_usage"@, "total_usage"@]) == Some(
            JsonView::Number(Some(total)),
        ),
        j.at(seq!["precpu_stats"@, "cpu_usage"@, "total_usage"@]) == Some(
            JsonView::Number(Some(before)),
        ),
        j.at(seq!["cpu_stats"@, "system_cpu_usage"@]) == Some(JsonView::Number(Some(system))),
        j.at(seq!["precpu_stats"@, "system_cpu_usage"@]) == Some(
            JsonView::Number(Some(system_before)),
        ),
    ensures
        reading_of(j, Some(p)).cpu == (CpuBasis::Host {
            total,
            pre_total: before,
            system,
            pre_system: system_before,
        }),
        reading_of(j, None).cpu == reading_of(j, Some(p)).cpu,
{
}

/// What came in and went out since the last sample is the growth of the interfaces' counters.
pub proof fn traffic_is_told_by_direction(
    j: JsonView,
    name: Seq<char>,
    o: JsonView,
    p: Totals,
    rx: u64,
    tx: u64,
)
    requires
        j.member("networks"@) == Some(JsonView::Object(seq![(name, o)])),
        o.at(seq!["rx_bytes"@]) == Some(JsonView::Number(Some(rx))),
        o.at(seq!["tx_bytes"@]) == Some(JsonView::Number(Some(tx))),
        p.rx <= rx,
        p.tx <= tx,
    ensures
        totals_of(j).rx == rx,
        totals_of(j).tx == tx,
        reading_of(j, Some(p)).net == Some(((rx - p.rx) as u64, (tx - p.tx) as u64)),
        reading_of(j, None).net is None,
{
    let l = seq![(name, o)];
    assert(l.drop_last().len() == 0);
    assert(l.last() == (name, o));
    assert(crate::stats::net_sum(l.drop_last(), "rx_bytes"@) == 0);
    assert(crate::stats::net_sum(l.drop_last(), "tx_bytes"@) == 0);
}

/// The newest sample counts, and only while the pane is shown; turning to another container begins
/// anew.
pub proof fn newest_sample_counts(m: StatsModel, l: Seq<JsonView>, j: JsonView, id: Seq<char>)
    requires
        m.visible,
        m.streaming,
    ensures
        m.sampled(l.push(j), false).1 == Some(reading_of(j, m.last)),
        m.sampled(l.push(j), false).0.last == Some(totals_of(j)),
        m.sampled(l.push(j), false).0.streaming,
        !m.sampled(l.push(j), true).0.streaming,
        m.container_id != Some(id) ==> m.attached(id).0.last is None && m.attached(id).1
            && m.attached(id).0.container_id == Some(id),
{
    assert(l.push(j).last() == j);
}

/* ---------------- sizes and ages ---------------- */

proof fn whole_units(k: int, unit: int)
    requires
        0 < k < 1024,
        unit > 0,
    ensures
        nearest(k * unit * 10, unit) == 10 * k,
        (10 * k) / 10 == k,
        (10 * k) % 10 == 0,
{
    assert((k * unit * 10) / unit == 10 * k && (k * unit * 10) % unit == 0) by (nonlinear_arith)
        requires
            unit > 0,
            0 < k < 1024,
    ;
}

proof fn exact_below(n: int)
    requires
        0 <= n < 0x20_0000_0000_0000,
    ensures
        significant(n) == n,
{
    assert(grain(n) == 1);
    assert(n / 1 == n && n % 1 == 0);
}

/// A whole number of KiB, MiB or GiB is shown as that number in that unit.
pub proof fn whole_sizes(k: int)
    requires
        0 < k < 1024,
    ensures
        size_text((k * 0x400) as i64) == text::decimal(k as nat) + ".0 KiB"@,
        size_text((k * 0x10_0000) as i64) == text::decimal(k as nat) + ".0 MiB"@,
        size_text((k * 0x4000_0000) as i64) == text::decimal(k as nat) + ".0 GiB"@,
{
    reveal_strlit(".0 KiB");
    reveal_strlit(".0 MiB");
    reveal_strlit(".0 GiB");
    reveal_strlit(" KiB");
    reveal_strlit(" MiB");
    reveal_strlit(" GiB");
    reveal_strlit(".");
    let zero = text::decimal(0);
    assert(zero == seq!['0']);
    let d = text::decimal(k as nat);
    exact_below(k * 0x400);
    exact_below(k * 0x10_0000);
    exact_below(k * 0x4000_0000);
    whole_units(k, 0x400);
    whole_units(k, 0x10_0000);
    whole_units(k, 0x4000_0000);
    assert(d + "."@ + zero + " KiB"@ == d + ".0 KiB"@);
    assert(d + "."@ + zero + " MiB"@ == d + ".0 MiB"@);
    assert(d + "."@ + zero + " GiB"@ == d + ".0 GiB"@);
}

/// An age is shown in days and hours, in hours and minutes, or in minutes, whichever begins with
/// something.
pub proof fn ages_are_told(created: i64, d: int, h: int, m: int, s: int)
    requires
        created > 0,
        0 <= d < 100_000,
        0 <= h < 24,
        0 <= m < 60,
        0 <= s < 60,
    ensures
        ({
            let age = age_text(created, (created + d * 86400 + h * 3600 + m * 60 + s) as u64);
            &&& d > 0 ==> age == text::decimal(d as nat) + "d "@ + text::decimal(h as nat) + "h"@
            &&& d == 0 && h > 0 ==> age == text::decimal(h as nat) + "h "@ + text::decimal(m as nat)
                + "m"@
            &&& d == 0 && h == 0 ==> age == text::decimal(m as nat) + "m"@
        }),
{
}

/// A row of a pull is shown as it was written, without blanks at its end; errors stand out, and so
/// does what is complete.
pub proof fn rows_of_a_pull(
    p: PullModel,
    i: int,
    t: Seq<char>,
    theme: crate::theme::Theme,
    a: Seq<char>,
    b: Seq<char>,
)
    requires
        p.screen.lines[i] == t,
        t.len() > 0,
        !text::is_white(t.last()),
    ensures
        p.shown_row(i, theme).text == t,
        text::begins(t, "❌"@) ==> p.shown_row(i, theme).style.fg == Some(theme.err),
        !text::begins(t, "❌"@) && t == a + "Pulled"@ + b ==> p.shown_row(i, theme).style.fg == Some(
            theme.ok,
        ),
{
    crate::laws::text::texts_are_found(a, "Pulled"@, b);
}

/// The counters of several interfaces are added up.
pub proof fn interfaces_are_added_up(
    l: Seq<(Seq<char>, JsonView)>,
    name: Seq<char>,
    o: JsonView,
    key: Seq<char>,
    n: u64,
)
    requires
        o.whole_at(seq![key]) == n,
        crate::stats::net_sum(l, key) + n <= u64::MAX,
    ensures
        crate::stats::net_sum(l.push((name, o)), key) == crate::stats::net_sum(l, key) + n,
        crate::stats::net_sum(Seq::empty(), key) == 0,
{
    assert(l.push((name, o)).drop_last() == l);
}

/// Without the sample before, the processor time is told since what was kept.
pub proof fn processor_time_since_the_last(j: JsonView, p: Totals, total: u64)
    requires
        j.at(seq!["cpu_stats"@, "cpu_usage"@, "total_usage"@]) == Some(
            JsonView::Number(Some(total)),
        ),
        j.at(seq!["precpu_stats"@, "cpu_usage"@, "total_usage"@]) is None,
        p.cpu <= total,
    ensures
        reading_of(j, Some(p)).cpu == (CpuBasis::Elapsed { delta: (total - p.cpu) as u64 }),
        reading_of(j, None).cpu == CpuBasis::Unknown,
        reading_of(j, Some(p)).cpu_unchanged == (p.cpu == total),
{
}

/// Sizes are rounded to the nearest tenth.
pub proof fn sizes_are_rounded(a: int, b: int)
    requires
        a >= 0,
        b > 0,
    ensures
        2 * (nearest(a, b) * b - a) <= b,
        2 * (a - nearest(a, b) * b) <= b,
{
    let q = a / b;
    let r = a % b;
    assert(a == q * b + r && 0 <= r < b) by (nonlinear_arith)
        requires
            b > 0,
            q == a / b,
            r == a % b,
    ;
    assert((q + 1) * b == q * b + b) by (nonlinear_arith);
}

} // verus!
