//! What the log shows of its lines.

use crate::key::{KeyCode, KeyEvent};
use crate::laws::keys::pressed;
use crate::log_line::{find_bytes, marked, piece};
use crate::logs::{FollowView, LogsActionView, LogsModel};
use crate::text;
use vstd::prelude::*;

verus! {

/// Exactly as many lines lie below those that are drawn as the pane is scrolled up, and above that
/// point as many are drawn as there is room for.
pub proof fn scrolled_lines_lie_below(m: LogsModel, rows: int)
    requires
        rows >= 0,
        m.scroll <= m.shown().len(),
    ensures
        ({
            let (start, end) = m.window(rows);
            &&& m.shown().len() - end == m.scroll
            &&& 0 <= start <= end
            &&& end - start <= rows
            &&& end - start < rows ==> start == 0
        }),
{
}

/// At the top, the first line can be read; at the bottom, the last one.
pub proof fn top_and_bottom_are_reached(m: LogsModel)
    requires
        0 < m.shown().len() <= usize::MAX,
    ensures
        m.at_top().window(1) == (0int, 1int),
        m.at_top().shown() == m.shown(),
        !m.at_top().follow,
        m.at_bottom().window(1) == (m.shown().len() - 1, m.shown().len() as int),
        m.at_bottom().shown() == m.shown(),
{
}

/// A step up moves what is drawn up by one line while there is a line above, and a step down moves
/// it back.
pub proof fn steps_move_the_window(m: LogsModel, rows: int)
    requires
        rows > 0,
        m.shown().len() <= usize::MAX,
        m.scroll + 1 < m.shown().len(),
    ensures
        ({
            let up = m.on_key(KeyEvent { code: KeyCode::Up, control: false }).0;
            let back = up.on_key(KeyEvent { code: KeyCode::Down, control: false }).0;
            &&& up.shown() == m.shown()
            &&& up.window(rows).1 == m.window(rows).1 - 1
            &&& !up.follow
            &&& up.paused
            &&& back.window(rows) == m.window(rows)
        }),
{
}

/// Without a search every line is shown.
pub proof fn all_lines_are_shown(m: LogsModel)
    requires
        m.query.len() == 0,
    ensures
        m.shown() == m.lines,
{
}

/// With a search, a further line is shown behind the others if and only if it holds what is
/// searched for, whatever the case of the letters.
pub proof fn search_takes_each_line_by_itself(m: LogsModel, line: Seq<char>)
    requires
        m.query.len() > 0,
    ensures
        ({
            let more = LogsModel { lines: m.lines.push(line), ..m };
            more.shown() == (if text::holds(text::lowercase(line), text::lowercase(m.query)) {
                m.shown().push(line)
            } else {
                m.shown()
            })
        }),
        (LogsModel { lines: Seq::empty(), ..m }).shown().len() == 0,
{
    assert(m.lines.push(line).drop_last() == m.lines);
}

/// While the pane follows and is not paused, new lines bring it to the bottom; while it does not,
/// they leave it scrolled as it is.
pub proof fn following_stays_at_the_bottom(m: LogsModel, more: Seq<Seq<char>>)
    ensures
        m.follow && !m.paused ==> m.ticked(more).scroll == 0,
        !m.follow || m.paused ==> m.ticked(more).scroll == m.scroll,
        m.ticked(more).follow == m.follow,
        m.ticked(more).paused == m.paused,
        m.ticked(more).query == m.query,
{
}

/// `s` saves every line, and `S` those that are shown.
pub proof fn saves_what_is_asked_for(m: LogsModel, id: Seq<char>)
    requires
        m.container_id == Some(id),
        id.len() > 0,
        id[0] != '/',
    ensures
        m.on_key(pressed(KeyCode::Char('s'))) == (
            m,
            LogsActionView::Save {
                filtered: false,
                name: "dockrtui_logs_"@ + id + ".txt"@,
                text: text::joined(m.lines, "\n"@),
            },
        ),
        m.on_key(pressed(KeyCode::Char('S'))) == (
            m,
            LogsActionView::Save {
                filtered: true,
                name: "dockrtui_logs_"@ + id + ".txt"@,
                text: text::joined(m.shown(), "\n"@),
            },
        ),
{
    reveal_strlit("/");
    if text::begins(id, "/"@) {
        assert(id.subrange(0, 1)[0] == id[0]);
    }
    assert(text::without_leading(id, "/"@) == id);
}

/// `p` pauses and resumes, `f` follows or not, `w` wraps or not, each pressed twice being as it
/// was; `c` takes the lines away; `/` begins a search anew, and what is typed is what is searched
/// for.
pub proof fn keys_of_the_log(m: LogsModel, ch: char)
    requires
        ch == 'a' || ch == 'e' || ch == 'o' || ch == '0',
    ensures
        m.on_key(pressed(KeyCode::Char('p'))).0.paused == !m.paused,
        m.on_key(pressed(KeyCode::Char('f'))).0.follow == !m.follow,
        !m.follow ==> m.on_key(pressed(KeyCode::Char('f'))).0.scroll == 0,
        m.on_key(pressed(KeyCode::Char('w'))).0.wrap == !m.wrap,
        m.on_key(pressed(KeyCode::Char('c'))).0.lines.len() == 0,
        m.on_key(pressed(KeyCode::Char('p'))).0.lines == m.lines,
        m.on_key(pressed(KeyCode::Char('w'))).0.lines == m.lines,
        ({
            let s = m.on_key(pressed(KeyCode::Char('/'))).0;
            &&& s.searching
            &&& s.query.len() == 0
            &&& s.on_key(pressed(KeyCode::Char(ch))).0.query == seq![ch]
            &&& s.on_key(pressed(KeyCode::Char(ch))).0.on_key(
                pressed(KeyCode::Backspace),
            ).0.query.len() == 0
        }),
        m.searching ==> !m.on_key(pressed(KeyCode::Esc)).0.searching,
        !m.searching ==> m.on_key(pressed(KeyCode::Esc)).0.query.len() == 0,
{
    let s = m.on_key(pressed(KeyCode::Char('/'))).0;
    assert(s.query.push(ch) == seq![ch]);
}

/// A page up shows the lines above those that were drawn, but for one line that stays in view.
pub proof fn pages_go_by_the_height(m: LogsModel, rows: int)
    requires
        rows == m.last_view_rows,
        rows > 2,
        m.shown().len() <= usize::MAX,
        m.scroll + rows < m.shown().len(),
    ensures
        ({
            let up = m.on_key(pressed(KeyCode::PageUp)).0;
            &&& up.window(rows).1 == m.window(rows).1 - (rows - 1)
            &&& up.on_key(pressed(KeyCode::PageDown)).0.window(rows) == m.window(rows)
        }),
{
}

/// To turn to another container takes the lines of the old one away; hiding the pane stops reading.
pub proof fn pane_turns_to_a_container(m: LogsModel, id: Seq<char>)
    requires
        m.visible,
        m.container_id != Some(id),
    ensures
        m.attached(id).0.container_id == Some(id),
        m.attached(id).0.lines.len() == 0,
        m.attached(id).1 == FollowView::Start(id),
        !m.toggled().0.visible,
        m.toggled().1 == FollowView::Stop,
        m.toggled().0.toggled().0.visible,
{
}

/// The title tells the container, and whether the log is paused or followed.
pub proof fn title_tells_the_state(m: LogsModel, id: Seq<char>)
    requires
        m.container_id == Some(id),
    ensures
        m.paused ==> m.title() == "Logs ("@ + id + ") — paused"@,
        !m.paused && m.follow ==> m.title() == "Logs ("@ + id + ") — follow"@,
        !m.paused && !m.follow ==> m.title() == "Logs ("@ + id + ")"@,
{
}

/// Where what is searched for stands, it is marked; where it stands nowhere, nothing is.
pub proof fn matches_are_marked(s: Seq<u8>, q: Seq<u8>, i: int)
    requires
        0 <= i < s.len(),
        q.len() > 0,
    ensures
        find_bytes(s, q, i) is None ==> marked(s, s, q, i) == seq![
            (piece(s, i, s.len() as int), false),
        ],
        i + q.len() <= s.len() && s.subrange(i, i + q.len()) == q
            && vstd::utf8::is_char_boundary(s, i) && vstd::utf8::is_char_boundary(s, i + q.len())
            ==> marked(s, s, q, i).len() > 0 && marked(s, s, q, i)[0] == (
            piece(s, i, i + q.len()),
            true,
        ),
{
    if i + q.len() <= s.len() && s.subrange(i, i + q.len()) == q {
        assert(find_bytes(s, q, i) == Some(i));
    }
}

/// Back at the bottom, a log that is followed goes on by itself.
pub proof fn bottom_resumes(m: LogsModel)
    requires
        m.follow,
        m.scroll == 1,
    ensures
        !m.on_key(pressed(KeyCode::Down)).0.paused,
        m.on_key(pressed(KeyCode::Down)).0.scroll == 0,
        !m.on_key(pressed(KeyCode::End)).0.paused,
        m.on_key(pressed(KeyCode::End)).0.scroll == 0,
{
}

/// A line more than there is room for takes the oldest one's place.
pub proof fn oldest_line_goes(l: Seq<Seq<char>>, s: Seq<char>)
    requires
        l.len() == crate::logs::MAX_LINES,
        s.len() > 0,
        s.last() != '\r',
    ensures
        crate::logs::pushed(l, s) == l.drop_first().push(s),
        crate::logs::pushed(l.drop_first(), s) == l.drop_first().push(s),
{
}

} // verus!
