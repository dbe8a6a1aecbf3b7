//! The log of one container, in a pane over the right half of the screen.

use crate::key::{KeyCode, KeyEvent};
use crate::log_line::{line_spans, render_line};
use crate::num::less_by;
use crate::text;
use crate::theme::{note_view, Color, Note, Span, Theme};
use std::collections::VecDeque;
use vstd::prelude::*;

verus! {

/// As many lines are kept; the oldest go first.
pub const MAX_LINES: usize = 5_000;

/// As many lines are taken in one tick.
pub const LINES_PER_TICK: usize = 1_000;

/// What becomes of the stream that the lines come from.
pub enum Follow {
    Keep,
    Stop,
    /// Drop the stream that is read, with what was not taken from it, and read that of a
    /// container.
    Start(String),
}

#[verifier::ext_equal]
pub enum FollowView {
    Keep,
    Stop,
    Start(Seq<char>),
}

impl View for Follow {
    type V = FollowView;

    open spec fn view(&self) -> FollowView {
        match self {
            Follow::Keep => FollowView::Keep,
            Follow::Stop => FollowView::Stop,
            Follow::Start(id) => FollowView::Start(id@),
        }
    }
}

/// What a key asks of the owner of the pane.
pub enum LogsAction {
    Nothing,
    /// Write a text to a file of that name in the directory for temporary files.
    Save { filtered: bool, name: String, text: String },
}

#[verifier::ext_equal]
pub enum LogsActionView {
    Nothing,
    Save { filtered: bool, name: Seq<char>, text: Seq<char> },
}

impl View for LogsAction {
    type V = LogsActionView;

    open spec fn view(&self) -> LogsActionView {
        match self {
            LogsAction::Nothing => LogsActionView::Nothing,
            LogsAction::Save { filtered, name, text } => LogsActionView::Save {
                filtered: *filtered,
                name: name@,
                text: text@,
            },
        }
    }
}

pub struct LogsPane {
    pub visible: bool,
    pub container_id: Option<String>,
    pub lines: VecDeque<String>,
    /// No scrolling to the end as lines come in.
    pub paused: bool,
    /// Stay at the end.
    pub follow: bool,
    pub wrap: bool,
    /// How many lines lie below those that are shown.
    pub scroll: usize,
    pub last_view_rows: usize,
    /// A stream is being read.
    pub following: bool,
    pub last_note: Note,
    pub query: String,
    pub searching: bool,
    pub last_match_row: Option<usize>,
}

#[verifier::ext_equal]
pub struct LogsModel {
    pub visible: bool,
    pub container_id: Option<Seq<char>>,
    pub lines: Seq<Seq<char>>,
    pub paused: bool,
    pub follow: bool,
    pub wrap: bool,
    pub scroll: usize,
    pub last_view_rows: usize,
    pub following: bool,
    pub note: Option<(Seq<char>, Color)>,
    pub query: Seq<char>,
    pub searching: bool,
    pub last_match_row: Option<usize>,
}

impl View for LogsPane {
    type V = LogsModel;

    open spec fn view(&self) -> LogsModel {
        LogsModel {
            visible: self.visible,
            container_id: self.container_id.deep_view(),
            lines: self.lines.deep_view(),
            paused: self.paused,
            follow: self.follow,
            wrap: self.wrap,
            scroll: self.scroll,
            last_view_rows: self.last_view_rows,
            following: self.following,
            note: note_view(self.last_note),
            query: self.query@,
            searching: self.searching,
            last_match_row: self.last_match_row,
        }
    }
}

/// The lines after one more came in.
pub open spec fn pushed(l: Seq<Seq<char>>, s: Seq<char>) -> Seq<Seq<char>> {
    (if l.len() == MAX_LINES {
        l.drop_first()
    } else {
        l
    }).push(text::without_return(s))
}

/// The lines after some more came in.
pub open spec fn pushed_all(l: Seq<Seq<char>>, more: Seq<Seq<char>>) -> Seq<Seq<char>>
    decreases more.len(),
{
    if more.len() == 0 {
        l
    } else {
        pushed(pushed_all(l, more.drop_last()), more.last())
    }
}

/// The lines that hold what is searched for, which is in lower case, in any case.
pub open spec fn matching(l: Seq<Seq<char>>, q: Seq<char>) -> Seq<Seq<char>>
    decreases l.len(),
{
    if l.len() == 0 {
        Seq::empty()
    } else {
        let before = matching(l.drop_last(), q);
        if text::holds(text::lowercase(l.last()), q) {
            before.push(l.last())
        } else {
            before
        }
    }
}

/// The row that a jump goes to, of `n` that all hold what is searched for: the one after the row
/// that was jumped to last, or the one before it, round the ends. Where no row was jumped to, or
/// it is gone, the way begins at an end.
pub open spec fn jump_row(n: int, last: Option<usize>, forward: bool) -> int {
    match last {
        Some(i) if i < n => if forward {
            if i + 1 < n {
                i + 1
            } else {
                0
            }
        } else if i > 0 {
            i - 1
        } else {
            n - 1
        },
        _ => if forward {
            0
        } else {
            n - 1
        },
    }
}

impl LogsModel {
    pub open spec fn fresh() -> LogsModel {
        LogsModel {
            visible: false,
            container_id: None,
            lines: Seq::empty(),
            paused: false,
            follow: true,
            wrap: false,
            scroll: 0,
            last_view_rows: 0,
            following: false,
            note: None,
            query: Seq::empty(),
            searching: false,
            last_match_row: None,
        }
    }

    /// No more lines than there is room for.
    pub open spec fn valid(self) -> bool {
        self.lines.len() <= MAX_LINES
    }

    /// The lines that are shown: all of them, or those that hold what is searched for.
    pub open spec fn shown(self) -> Seq<Seq<char>> {
        if self.query.len() == 0 {
            self.lines
        } else {
            matching(self.lines, text::lowercase(self.query))
        }
    }

    pub open spec fn noted(self, t: Seq<char>, c: Color) -> LogsModel {
        LogsModel { note: Some((t, c)), ..self }
    }

    pub open spec fn stopped(self) -> LogsModel {
        LogsModel { following: false, ..self }
    }

    /// The pane reads the stream of its container anew.
    pub open spec fn restarted(self) -> (LogsModel, FollowView) {
        let m = LogsModel { lines: Seq::empty(), scroll: 0, follow: true, ..self };
        match self.container_id {
            Some(id) => (LogsModel { following: true, ..m }, FollowView::Start(id)),
            None => (m.stopped(), FollowView::Stop),
        }
    }

    pub open spec fn toggled(self) -> (LogsModel, FollowView) {
        let m = LogsModel { visible: !self.visible, ..self };
        if m.visible {
            (m, FollowView::Keep)
        } else {
            (m.stopped(), FollowView::Stop)
        }
    }

    pub open spec fn attached(self, id: Seq<char>) -> (LogsModel, FollowView) {
        let m = LogsModel { container_id: Some(id), ..self };
        if (self.container_id != Some(id) || !self.following) && self.visible {
            m.restarted()
        } else {
            (m, FollowView::Keep)
        }
    }

    pub open spec fn scrolled_up(self, n: int) -> LogsModel {
        let top = less_by(self.shown().len() as int, 1);
        LogsModel {
            scroll: (if self.scroll + n < top {
                self.scroll + n
            } else {
                top
            }) as usize,
            follow: false,
            paused: true,
            ..self
        }
    }

    pub open spec fn scrolled_down(self, n: int) -> LogsModel {
        let scroll = less_by(self.scroll as int, n) as usize;
        LogsModel { scroll, paused: self.paused && !(scroll == 0 && self.follow), ..self }
    }

    pub open spec fn at_top(self) -> LogsModel {
        LogsModel {
            scroll: less_by(self.shown().len() as int, 1) as usize,
            follow: false,
            paused: true,
            ..self
        }
    }

    pub open spec fn at_bottom(self) -> LogsModel {
        LogsModel { scroll: 0, paused: self.paused && !self.follow, ..self }
    }

    pub open spec fn page_step(self) -> int {
        if self.last_view_rows > 2 {
            self.last_view_rows - 1
        } else {
            1
        }
    }

    /// The pane goes to a row and stays there; the row stands last among those that are drawn.
    pub open spec fn at_row(self, row: int) -> LogsModel {
        LogsModel {
            last_match_row: Some(row as usize),
            scroll: (self.shown().len() - 1 - row) as usize,
            follow: false,
            paused: true,
            ..self
        }
    }

    /// The next match, or the one before.
    pub open spec fn jumped(self, forward: bool) -> LogsModel {
        let n = self.shown().len() as int;
        if self.query.len() == 0 || n == 0 {
            self
        } else {
            self.at_row(jump_row(n, self.last_match_row, forward))
        }
    }

    /// The latest match, which is the one at the bottom.
    pub open spec fn at_latest(self) -> LogsModel {
        let n = self.shown().len() as int;
        if self.query.len() == 0 || n == 0 {
            self
        } else {
            self.at_row(n - 1)
        }
    }

    /// The name of the file that the log is saved to.
    pub open spec fn file_name(self) -> Seq<char> {
        let id = match self.container_id {
            Some(id) => id,
            None => "unknown"@,
        };
        "dockrtui_logs_"@ + text::without_leading(id, "/"@) + ".txt"@
    }

    pub open spec fn save(self, filtered: bool) -> LogsActionView {
        LogsActionView::Save {
            filtered,
            name: self.file_name(),
            text: text::joined(
                if filtered {
                    self.shown()
                } else {
                    self.lines
                },
                "\n"@,
            ),
        }
    }

    /// What a key does.
    pub open spec fn on_key(self, key: KeyEvent) -> (LogsModel, LogsActionView) {
        let nothing = LogsActionView::Nothing;
        match key.code {
            KeyCode::Char('p') => {
                let m = LogsModel { paused: !self.paused, ..self }.noted(
                    if self.paused {
                        "▶ autoscroll resumed"@
                    } else {
                        "⏸ autoscroll paused"@
                    },
                    Color::Yellow,
                );
                (
                    if !m.paused && m.follow {
                        LogsModel { scroll: 0, ..m }
                    } else {
                        m
                    },
                    nothing,
                )
            },
            KeyCode::Char('f') => {
                let m = LogsModel { follow: !self.follow, ..self }.noted(
                    if self.follow {
                        "📌 follow off"@
                    } else {
                        "📌 follow on"@
                    },
                    Color::Blue,
                );
                (
                    if m.follow {
                        LogsModel { scroll: 0, ..m }
                    } else {
                        m
                    },
                    nothing,
                )
            },
            KeyCode::Char('w') => (
                LogsModel { wrap: !self.wrap, ..self }.noted(
                    if self.wrap {
                        "↪ wrap off"@
                    } else {
                        "↪ wrap on"@
                    },
                    Color::Blue,
                ),
                nothing,
            ),
            KeyCode::Char('c') => (
                LogsModel { lines: Seq::empty(), scroll: 0, ..self }.noted(
                    "🧹 logs cleared"@,
                    Color::Blue,
                ),
                nothing,
            ),
            KeyCode::Char('s') => (self, self.save(false)),
            KeyCode::Char('S') => (self, self.save(true)),
            KeyCode::Char('/') => (
                LogsModel { searching: true, query: Seq::empty(), ..self },
                nothing,
            ),
            KeyCode::Esc => (
                if self.searching {
                    LogsModel { searching: false, ..self }
                } else {
                    LogsModel { query: Seq::empty(), last_match_row: None, ..self }
                },
                nothing,
            ),
            KeyCode::Backspace => (
                if self.searching {
                    LogsModel { query: text::popped(self.query), ..self }
                } else {
                    self
                },
                nothing,
            ),
            KeyCode::Enter => (
                if self.searching {
                    LogsModel { searching: false, ..self }.at_latest()
                } else {
                    self
                },
                nothing,
            ),
            KeyCode::Char(ch) => (
                if self.searching {
                    LogsModel { query: self.query.push(ch), ..self }
                } else if ch == 'n' {
                    self.jumped(true)
                } else if ch == 'N' {
                    self.jumped(false)
                } else if ch == 'g' {
                    self.at_top()
                } else if ch == 'G' {
                    self.at_bottom()
                } else {
                    self
                },
                nothing,
            ),
            KeyCode::Up => (self.scrolled_up(1), nothing),
            KeyCode::Down => (self.scrolled_down(1), nothing),
            KeyCode::PageUp => (self.scrolled_up(self.page_step()), nothing),
            KeyCode::PageDown => (self.scrolled_down(self.page_step()), nothing),
            KeyCode::Home => (self.at_top(), nothing),
            KeyCode::End => (self.at_bottom(), nothing),
            _ => (self, nothing),
        }
    }

    /// The pane is told how saving went: the path that was written, or what went wrong.
    pub open spec fn saved(self, filtered: bool, out: Result<Seq<char>, Seq<char>>) -> LogsModel {
        match out {
            Ok(path) => self.noted(
                (if filtered {
                    "💾 saved filtered: "@
                } else {
                    "💾 saved: "@
                }) + path,
                Color::Green,
            ),
            Err(e) => self.noted(
                (if filtered {
                    "❌ save filtered: "@
                } else {
                    "❌ save logs: "@
                }) + e,
                Color::Red,
            ),
        }
    }

    pub open spec fn took(self, more: Seq<Seq<char>>) -> LogsModel {
        LogsModel { lines: pushed_all(self.lines, more), ..self }
    }

    /// A tick, at which some lines came in.
    pub open spec fn ticked(self, more: Seq<Seq<char>>) -> LogsModel {
        let m = self.took(more);
        if m.follow && !m.paused {
            LogsModel { scroll: 0, ..m }
        } else {
            m
        }
    }

    /// The rows that are drawn, where there is room for `rows` of them: from the first to,
    /// not including, the second.
    pub open spec fn window(self, rows: int) -> (int, int) {
        let end = less_by(self.shown().len() as int, self.scroll as int);
        (less_by(end, rows), end)
    }

    pub open spec fn title(self) -> Seq<char> {
        match self.container_id {
            Some(id) => "Logs ("@ + id + (if self.paused {
                ") — paused"@
            } else if self.follow {
                ") — follow"@
            } else {
                ")"@
            }),
            None => "Logs"@,
        }
    }

    pub open spec fn footer(self) -> Seq<char> {
        let n = self.shown().len();
        let end = less_by(n as int, self.scroll as int) as nat;
        let state = if self.follow && self.scroll == 0 {
            " [FOLLOW]"@
        } else {
            " [SCROLL]"@
        };
        let pause = if self.paused {
            " [PAUSE]"@
        } else {
            Seq::empty()
        };
        let wrap = if self.wrap {
            " [WRAP]"@
        } else {
            Seq::empty()
        };
        let query = if self.searching {
            "  | search: "@ + self.query
        } else if self.query.len() > 0 {
            "  | filter: '"@ + self.query + "'"@
        } else {
            Seq::empty()
        };
        state + pause + wrap + "  lines: "@ + text::decimal(self.lines.len()) + " (filtered: "@
            + text::decimal(n) + ")"@ + "  pos: "@ + text::decimal(end) + "/"@ + text::decimal(n)
            + query + logs_keys()
    }
}

pub open spec fn logs_keys() -> Seq<char> {
    "  — keys: p pause • f follow • w wrap • ↑/↓/PgUp/PgDn/Home/End • s/S save • / search • n/N next/prev • l/esc close"@
}

/* ---------------- laws ---------------- */

proof fn matching_hold(l: Seq<Seq<char>>, q: Seq<char>)
    ensures
        matching(l, q).len() <= l.len(),
        forall|i: int|
            0 <= i < matching(l, q).len() ==> text::holds(
                text::lowercase(#[trigger] matching(l, q)[i]),
                q,
            ),
    decreases l.len(),
{
    if l.len() > 0 {
        matching_hold(l.drop_last(), q);
    }
}

/// Every line that is shown while something is searched for holds it, whatever the case of its
/// letters.
pub proof fn shows_what_holds_the_query(m: LogsModel, i: int)
    requires
        m.query.len() > 0,
        0 <= i < m.shown().len(),
    ensures
        text::holds(text::lowercase(m.shown()[i]), text::lowercase(m.query)),
{
    matching_hold(m.lines, text::lowercase(m.query));
}

proof fn pushed_fits(l: Seq<Seq<char>>, more: Seq<Seq<char>>)
    requires
        l.len() <= MAX_LINES,
    ensures
        pushed_all(l, more).len() <= MAX_LINES,
    decreases more.len(),
{
    if more.len() > 0 {
        pushed_fits(l, more.drop_last());
    }
}

/// Whatever happens to the pane, it keeps no more lines than it has room for.
pub proof fn lines_are_bounded(
    m: LogsModel,
    key: KeyEvent,
    more: Seq<Seq<char>>,
    id: Seq<char>,
)
    requires
        m.valid(),
    ensures
        LogsModel::fresh().valid(),
        m.on_key(key).0.valid(),
        m.ticked(more).valid(),
        m.toggled().0.valid(),
        m.attached(id).0.valid(),
        m.restarted().0.valid(),
{
    pushed_fits(m.lines, more);
}

/// The lines that came in last are those that are kept, each without a carriage return at its
/// end.
pub proof fn newest_lines_are_kept(l: Seq<Seq<char>>, more: Seq<Seq<char>>, k: int)
    requires
        l.len() <= MAX_LINES,
        0 <= k < more.len(),
        k < MAX_LINES,
    ensures
        pushed_all(l, more).len() > k,
        pushed_all(l, more)[pushed_all(l, more).len() - 1 - k] == text::without_return(
            more[more.len() - 1 - k],
        ),
    decreases more.len(),
{
    pushed_fits(l, more.drop_last());
    if k > 0 {
        newest_lines_are_kept(l, more.drop_last(), k - 1);
    }
}

/// A jump goes to a row that holds what is searched for, and that row is the last of those
/// that are drawn.
pub proof fn jump_shows_a_match(m: LogsModel, forward: bool, rows: int)
    requires
        m.valid(),
        m.query.len() > 0,
        m.shown().len() > 0,
        rows > 0,
    ensures
        shows_match(m, m.jumped(forward), rows),
        shows_match(m, m.at_latest(), rows),
{
    matching_hold(m.lines, text::lowercase(m.query));
}

/// The pane `j` shows, at its bottom, a row of `m` that holds what is searched for.
pub open spec fn shows_match(m: LogsModel, j: LogsModel, rows: int) -> bool {
    let end = j.window(rows).1;
    &&& j.shown() == m.shown()
    &&& j.last_match_row == Some((end - 1) as usize)
    &&& 0 < end <= j.shown().len()
    &&& j.window(rows).0 < end
    &&& text::holds(text::lowercase(j.shown()[end - 1]), text::lowercase(m.query))
}

/// Enter ends a search at its latest match, the one nearest to the bottom.
pub proof fn search_ends_at_the_latest_match(m: LogsModel, control: bool)
    requires
        m.valid(),
        m.searching,
        m.query.len() > 0,
        m.shown().len() > 0,
    ensures
        ({
            let j = m.on_key(KeyEvent { code: KeyCode::Enter, control }).0;
            &&& !j.searching
            &&& j.last_match_row == Some((m.shown().len() - 1) as usize)
            &&& j.scroll == 0
        }),
{
}

/// Of two matches or more, `n` goes to another one than the last, and `N` goes back to it.
pub proof fn next_and_back_again(m: LogsModel, control: bool)
    requires
        m.valid(),
        !m.searching,
        m.query.len() > 0,
        m.last_match_row matches Some(i) && i < m.shown().len(),
    ensures
        ({
            let next = KeyEvent { code: KeyCode::Char('n'), control };
            let back = KeyEvent { code: KeyCode::Char('N'), control };
            let j = m.on_key(next).0;
            &&& m.shown().len() > 1 ==> j.last_match_row != m.last_match_row
            &&& j.on_key(back).0.last_match_row == m.last_match_row
            &&& m.on_key(back).0.on_key(next).0.last_match_row == m.last_match_row
        }),
{
    matching_hold(m.lines, text::lowercase(m.query));
}

/// Scrolling stays within the lines that are shown, so at least one of them is drawn.
pub proof fn scrolling_stays_on_lines(m: LogsModel, n: int, rows: int)
    requires
        m.valid(),
        m.shown().len() > 0,
        n >= 0,
        rows > 0,
    ensures
        m.scrolled_up(n).scroll < m.shown().len(),
        m.at_top().scroll < m.shown().len(),
        m.scrolled_up(n).window(rows).0 < m.scrolled_up(n).window(rows).1,
        m.scrolled_down(n).scroll <= m.scroll,
        m.at_bottom().window(rows).1 == m.shown().len(),
{
    matching_hold(m.lines, text::lowercase(m.query));
}

/* ---------------- the pane ---------------- */

fn owned(s: &Option<String>) -> (r: Option<String>)
    ensures
        r.deep_view() == s.deep_view(),
{
    match s {
        Some(t) => Some(t.clone()),
        None => None,
    }
}

fn minus(a: usize, b: usize) -> (r: usize)
    ensures
        r == less_by(a as int, b as int),
{
    if a > b {
        a - b
    } else {
        0
    }
}

impl LogsPane {
    pub fn new() -> (r: LogsPane)
        ensures
            r@ == LogsModel::fresh(),
    {
        let r = LogsPane {
            visible: false,
            container_id: None,
            lines: VecDeque::with_capacity(MAX_LINES),
            paused: false,
            follow: true,
            wrap: false,
            scroll: 0,
            last_view_rows: 0,
            following: false,
            last_note: None,
            query: String::new(),
            searching: false,
            last_match_row: None,
        };
        assert(r.lines.deep_view() == Seq::<Seq<char>>::empty());
        r
    }

    /// Shows the pane, or hides it; a hidden pane reads nothing.
    pub fn toggle(&mut self) -> (r: Follow)
        ensures
            (final(self)@, r@) == old(self)@.toggled(),
    {
        self.visible = !self.visible;
        if !self.visible {
            self.stop_follow()
        } else {
            Follow::Keep
        }
    }

    /// Turns the pane to a container.
    pub fn attach(&mut self, id: &str) -> (r: Follow)
        ensures
            (final(self)@, r@) == old(self)@.attached(id@),
    {
        let other = match &self.container_id {
            Some(now) => !text::same(now.as_str(), id),
            None => true,
        };
        let needs_restart = other || !self.following;
        self.container_id = Some(id.to_owned());
        if needs_restart && self.visible {
            self.restart_follow()
        } else {
            Follow::Keep
        }
    }

    pub fn stop_follow(&mut self) -> (r: Follow)
        ensures
            final(self)@ == old(self)@.stopped(),
            r@ == FollowView::Stop,
    {
        self.following = false;
        Follow::Stop
    }

    /// Reads the stream of the container anew.
    pub fn restart_follow(&mut self) -> (r: Follow)
        ensures
            (final(self)@, r@) == old(self)@.restarted(),
    {
        self.lines.clear();
        assert(self.lines.deep_view() == Seq::<Seq<char>>::empty());
        self.scroll = 0;
        self.follow = true;
        match owned(&self.container_id) {
            Some(id) => {
                self.following = true;
                Follow::Start(id)
            },
            None => {
                self.following = false;
                Follow::Stop
            },
        }
    }

    fn note(&mut self, msg: &str, color: Color)
        ensures
            final(self)@ == old(self)@.noted(msg@, color),
    {
        self.last_note = Some((msg.to_owned(), color));
    }

    /// Takes one line in.
    pub fn push_line(&mut self, s: &str)
        requires
            old(self)@.valid(),
        ensures
            final(self)@ == (LogsModel { lines: pushed(old(self)@.lines, s@), ..old(self)@ }),
            final(self)@.valid(),
    {
        let ghost before = self.lines.deep_view();
        if self.lines.len() == MAX_LINES {
            let _ = self.lines.pop_front();
            assert(self.lines.deep_view() == before.drop_first());
        }
        let ghost kept = self.lines.deep_view();
        let t = text::drop_return(s);
        self.lines.push_back(t);
        assert(self.lines.deep_view() == kept.push(t@));
    }

    /// Takes lines that wait, the first of them first, and no more than `max_lines`.
    pub fn drain_incoming(&mut self, waiting: &mut VecDeque<String>, max_lines: usize)
        requires
            old(self)@.valid(),
        ensures
            ({
                let w = old(waiting).deep_view();
                let n = if w.len() < max_lines {
                    w.len() as int
                } else {
                    max_lines as int
                };
                &&& final(self)@ == old(self)@.took(w.take(n))
                &&& final(waiting).deep_view() == w.skip(n)
            }),
            final(self)@.valid(),
    {
        let ghost m = self@;
        let ghost w = waiting.deep_view();
        let mut n: usize = 0;
        assert(w.take(0) == Seq::<Seq<char>>::empty());
        assert(w.skip(0) == w);
        while n < max_lines
            invariant
                n <= max_lines,
                n <= w.len(),
                m.valid(),
                self@.valid(),
                self@ == m.took(w.take(n as int)),
                waiting.deep_view() == w.skip(n as int),
            ensures
                n == w.len() || n == max_lines,
                n <= max_lines,
                n <= w.len(),
                self@.valid(),
                self@ == m.took(w.take(n as int)),
                waiting.deep_view() == w.skip(n as int),
            decreases max_lines - n,
        {
            let ghost left = waiting.deep_view();
            assert(left.len() == waiting@.len());
            match waiting.pop_front() {
                Some(line) => {
                    proof {
                        assert(line@ == w.skip(n as int)[0]);
                        assert(w.take(n + 1).drop_last() == w.take(n as int));
                        assert(waiting.deep_view() == left.subrange(1, left.len() as int));
                        assert(left.subrange(1, left.len() as int) == w.skip(n + 1));
                    }
                    self.push_line(line.as_str());
                    n += 1;
                },
                None => {
                    break;
                },
            }
        }
    }

    /// A tick: lines that wait are taken, and the pane goes to the end if it follows.
    pub fn on_tick(&mut self, waiting: &mut VecDeque<String>)
        requires
            old(self)@.valid(),
        ensures
            ({
                let w = old(waiting).deep_view();
                let n = if w.len() < LINES_PER_TICK {
                    w.len() as int
                } else {
                    LINES_PER_TICK as int
                };
                &&& final(self)@ == old(self)@.ticked(w.take(n))
                &&& final(waiting).deep_view() == w.skip(n)
            }),
            final(self)@.valid(),
    {
        self.drain_incoming(waiting, LINES_PER_TICK);
        if self.follow && !self.paused {
            self.scroll = 0;
        }
    }

    /// The lines that are shown.
    pub fn filtered_view(&self) -> (r: Vec<String>)
        ensures
            r.deep_view() == self@.shown(),
    {
        let all = self.query.as_str().is_empty();
        let q = text::lower(self.query.as_str());
        let ghost l = self.lines.deep_view();
        let mut out: Vec<String> = Vec::new();
        let n: usize = self.lines.len();
        let mut i: usize = 0;
        assert(out.deep_view() == l.take(0));
        while i < n
            invariant
                i <= n,
                n == self.lines@.len(),
                l == self.lines.deep_view(),
                all ==> out.deep_view() == l.take(i as int),
                !all ==> out.deep_view() == matching(l.take(i as int), q@),
            decreases n - i,
        {
            assert(l[i as int] == self.lines@[i as int]@);
            assert(l.take(i + 1).drop_last() == l.take(i as int));
            let s = self.lines[i].clone();
            let keep = all || text::contains(text::lower(s.as_str()).as_str(), q.as_str());
            if keep {
                text::push_text(&mut out, s);
                assert(l.take(i + 1) == l.take(i as int).push(l[i as int]));
            }
            i += 1;
        }
        assert(l.take(n as int) == l);
        out
    }

    fn total_filtered_len(&self) -> (r: usize)
        ensures
            r == self@.shown().len(),
    {
        let n: usize = self.lines.len();
        assert(self.lines.deep_view().len() == n);
        if self.query.as_str().is_empty() {
            return n;
        }
        let q = text::lower(self.query.as_str());
        let ghost l = self.lines.deep_view();
        let mut c: usize = 0;
        let mut i: usize = 0;
        while i < n
            invariant
                c <= i <= n,
                n == self.lines@.len(),
                l == self.lines.deep_view(),
                c == matching(l.take(i as int), q@).len(),
            decreases n - i,
        {
            assert(l[i as int] == self.lines@[i as int]@);
            assert(l.take(i + 1).drop_last() == l.take(i as int));
            if text::contains(text::lower(self.lines[i].as_str()).as_str(), q.as_str()) {
                c += 1;
            }
            i += 1;
        }
        assert(l.take(n as int) == l);
        c
    }

    fn page_step(&self) -> (r: usize)
        ensures
            r == self@.page_step(),
    {
        if self.last_view_rows > 2 {
            self.last_view_rows - 1
        } else {
            1
        }
    }

    fn scroll_up(&mut self, n: usize)
        ensures
            final(self)@ == old(self)@.scrolled_up(n as int),
    {
        let top = minus(self.total_filtered_len(), 1);
        self.scroll = if self.scroll < top && n < top - self.scroll {
            self.scroll + n
        } else {
            top
        };
        self.follow = false;
        self.paused = true;
    }

    fn scroll_down(&mut self, n: usize)
        ensures
            final(self)@ == old(self)@.scrolled_down(n as int),
    {
        self.scroll = minus(self.scroll, n);
        if self.scroll == 0 && self.follow {
            self.paused = false;
        }
    }

    fn scroll_to_top(&mut self)
        ensures
            final(self)@ == old(self)@.at_top(),
    {
        self.scroll = minus(self.total_filtered_len(), 1);
        self.follow = false;
        self.paused = true;
    }

    fn scroll_to_bottom(&mut self)
        ensures
            final(self)@ == old(self)@.at_bottom(),
    {
        self.scroll = 0;
        if self.follow {
            self.paused = false;
        }
    }

    /// Goes to the next row that holds what is searched for, or to the one before.
    fn jump_to_match(&mut self, forward: bool)
        ensures
            final(self)@ == old(self)@.jumped(forward),
    {
        if self.query.as_str().is_empty() {
            return ;
        }
        let n: usize = self.total_filtered_len();
        if n == 0 {
            return ;
        }
        let last: Option<usize> = match self.last_match_row {
            Some(i) => if i < n {
                Some(i)
            } else {
                None
            },
            None => None,
        };
        let row: usize = match last {
            Some(i) => if forward {
                if i < n - 1 {
                    i + 1
                } else {
                    0
                }
            } else if i > 0 {
                i - 1
            } else {
                n - 1
            },
            None => if forward {
                0
            } else {
                n - 1
            },
        };
        self.go_to_row(row, n);
    }

    /// Goes to the latest row that holds what is searched for.
    fn jump_to_latest(&mut self)
        ensures
            final(self)@ == old(self)@.at_latest(),
    {
        if self.query.as_str().is_empty() {
            return ;
        }
        let n: usize = self.total_filtered_len();
        if n > 0 {
            self.go_to_row(n - 1, n);
        }
    }

    fn go_to_row(&mut self, row: usize, n: usize)
        requires
            n == old(self)@.shown().len(),
            row < n,
        ensures
            final(self)@ == old(self)@.at_row(row as int),
    {
        self.last_match_row = Some(row);
        self.scroll = n - 1 - row;
        self.follow = false;
        self.paused = true;
    }

    fn all_lines(&self) -> (r: Vec<String>)
        ensures
            r.deep_view() == self@.lines,
    {
        let ghost l = self.lines.deep_view();
        let mut out: Vec<String> = Vec::new();
        let n: usize = self.lines.len();
        let mut i: usize = 0;
        assert(out.deep_view() == l.take(0));
        while i < n
            invariant
                i <= n,
                n == self.lines@.len(),
                l == self.lines.deep_view(),
                out.deep_view() == l.take(i as int),
            decreases n - i,
        {
            assert(l[i as int] == self.lines@[i as int]@);
            text::push_text(&mut out, self.lines[i].clone());
            assert(l.take(i + 1) == l.take(i as int).push(l[i as int]));
            i += 1;
        }
        assert(l.take(n as int) == l);
        out
    }

    fn save_lines(&self, filtered: bool) -> (r: LogsAction)
        ensures
            r@ == self@.save(filtered),
    {
        let lines = if filtered {
            self.filtered_view()
        } else {
            self.all_lines()
        };
        let id = match &self.container_id {
            Some(id) => id.clone(),
            None => "unknown".to_owned(),
        };
        proof {
            reveal_strlit("/");
        }
        let name = text::cat3(
            "dockrtui_logs_",
            text::trim_start_matches(id.as_str(), "/").as_str(),
            ".txt",
        );
        LogsAction::Save { filtered, name, text: text::join(&lines, "\n") }
    }

    /// A key was pressed while the pane is shown.
    pub fn on_key(&mut self, key: KeyEvent) -> (r: LogsAction)
        ensures
            (final(self)@, r@) == old(self)@.on_key(key),
    {
        match key.code {
            KeyCode::Char('p') => {
                self.paused = !self.paused;
                if self.paused {
                    self.note("⏸ autoscroll paused", Color::Yellow);
                } else {
                    self.note("▶ autoscroll resumed", Color::Yellow);
                }
                if !self.paused && self.follow {
                    self.scroll = 0;
                }
            },
            KeyCode::Char('f') => {
                self.follow = !self.follow;
                if self.follow {
                    self.note("📌 follow on", Color::Blue);
                    self.scroll = 0;
                } else {
                    self.note("📌 follow off", Color::Blue);
                }
            },
            KeyCode::Char('w') => {
                self.wrap = !self.wrap;
                if self.wrap {
                    self.note("↪ wrap on", Color::Blue);
                } else {
                    self.note("↪ wrap off", Color::Blue);
                }
            },
            KeyCode::Char('c') => {
                self.lines.clear();
                assert(self.lines.deep_view() == Seq::<Seq<char>>::empty());
                self.scroll = 0;
                self.note("🧹 logs cleared", Color::Blue);
            },
            KeyCode::Char('s') => {
                return self.save_lines(false);
            },
            KeyCode::Char('S') => {
                return self.save_lines(true);
            },
            KeyCode::Char('/') => {
                self.searching = true;
                self.query = String::new();
            },
            KeyCode::Esc => {
                if self.searching {
                    self.searching = false;
                } else {
                    self.query = String::new();
                    self.last_match_row = None;
                }
            },
            KeyCode::Backspace => {
                if self.searching {
                    self.query = text::pop_char(self.query.as_str());
                }
            },
            KeyCode::Enter => {
                if self.searching {
                    self.searching = false;
                    self.jump_to_latest();
                }
            },
            KeyCode::Char(ch) => {
                if self.searching {
                    self.query.push(ch);
                } else if ch == 'n' {
                    self.jump_to_match(true);
                } else if ch == 'N' {
                    self.jump_to_match(false);
                } else if ch == 'g' {
                    self.scroll_to_top();
                } else if ch == 'G' {
                    self.scroll_to_bottom();
                }
            },
            KeyCode::Up => {
                self.scroll_up(1);
            },
            KeyCode::Down => {
                self.scroll_down(1);
            },
            KeyCode::PageUp => {
                let step: usize = self.page_step();
                self.scroll_up(step);
            },
            KeyCode::PageDown => {
                let step: usize = self.page_step();
                self.scroll_down(step);
            },
            KeyCode::Home => {
                self.scroll_to_top();
            },
            KeyCode::End => {
                self.scroll_to_bottom();
            },
            _ => {},
        }
        LogsAction::Nothing
    }

    /// Tells how saving went.
    pub fn on_saved(&mut self, filtered: bool, out: Result<String, String>)
        ensures
            final(self)@ == old(self)@.saved(
                filtered,
                match out {
                    Ok(p) => Ok(p@),
                    Err(e) => Err(e@),
                },
            ),
    {
        match out {
            Ok(path) => {
                let msg = if filtered {
                    text::cat("💾 saved filtered: ", path.as_str())
                } else {
                    text::cat("💾 saved: ", path.as_str())
                };
                self.note(msg.as_str(), Color::Green);
            },
            Err(e) => {
                let msg = if filtered {
                    text::cat("❌ save filtered: ", e.as_str())
                } else {
                    text::cat("❌ save logs: ", e.as_str())
                };
                self.note(msg.as_str(), Color::Red);
            },
        }
    }

    pub fn title(&self) -> (r: String)
        ensures
            r@ == self@.title(),
    {
        match &self.container_id {
            Some(id) => {
                if self.paused {
                    text::cat3("Logs (", id.as_str(), ") — paused")
                } else if self.follow {
                    text::cat3("Logs (", id.as_str(), ") — follow")
                } else {
                    text::cat3("Logs (", id.as_str(), ")")
                }
            },
            None => "Logs".to_owned(),
        }
    }

    /// The line below the log: the state of the pane, and its keys.
    pub fn footer(&self) -> (r: String)
        ensures
            r@ == self@.footer(),
    {
        let n: usize = self.total_filtered_len();
        let total: usize = self.lines.len();
        assert(self.lines.deep_view().len() == total);
        let end: usize = minus(n, self.scroll);
        let none: String = String::new();
        let state = if self.follow && self.scroll == 0 {
            " [FOLLOW]"
        } else {
            " [SCROLL]"
        };
        let pause = if self.paused {
            " [PAUSE]"
        } else {
            none.as_str()
        };
        let wrap = if self.wrap {
            " [WRAP]"
        } else {
            none.as_str()
        };
        let query = if self.searching {
            text::cat("  | search: ", self.query.as_str())
        } else if !self.query.as_str().is_empty() {
            text::cat3("  | filter: '", self.query.as_str(), "'")
        } else {
            String::new()
        };
        let shown = text::number(n as u64);
        let flags = text::cat3(state, pause, wrap);
        let lines = text::cat3(flags.as_str(), "  lines: ", text::number(total as u64).as_str());
        let kept = text::cat3(lines.as_str(), " (filtered: ", shown.as_str());
        let pos = text::cat3(kept.as_str(), ")", "  pos: ");
        let at = text::cat3(pos.as_str(), text::number(end as u64).as_str(), "/");
        let searched = text::cat3(at.as_str(), shown.as_str(), query.as_str());
        text::cat(
            searched.as_str(),
            "  — keys: p pause • f follow • w wrap • ↑/↓/PgUp/PgDn/Home/End • s/S save • / search • n/N next/prev • l/esc close",
        )
    }

    /// The lines that are drawn, where there is room for `rows` of them, each as its spans. The
    /// number of rows is kept, for the keys that scroll by a page.
    pub fn draw_lines(&mut self, rows: usize, theme: Theme) -> (r: Vec<Vec<Span>>)
        ensures
            final(self)@ == (LogsModel { last_view_rows: rows, ..old(self)@ }),
            ({
                let m = old(self)@;
                let (start, end) = m.window(rows as int);
                &&& r@.len() == end - start
                &&& forall|i: int|
                    0 <= i < end - start ==> (#[trigger] r@[i]).deep_view() == line_spans(
                        m.shown()[start + i],
                        m.query,
                        theme,
                    )
            }),
    {
        self.last_view_rows = rows;
        let ghost m = self@;
        let shown = self.filtered_view();
        assert(shown.deep_view().len() == shown@.len());
        let end: usize = minus(shown.len(), self.scroll);
        let start: usize = minus(end, rows);
        let mut out: Vec<Vec<Span>> = Vec::new();
        let mut i: usize = start;
        while i < end
            invariant
                start <= i <= end <= shown@.len(),
                m == self@,
                shown.deep_view() == m.shown(),
                out@.len() == i - start,
                forall|k: int|
                    0 <= k < i - start ==> (#[trigger] out@[k]).deep_view() == line_spans(
                        m.shown()[start + k],
                        m.query,
                        theme,
                    ),
            decreases end - i,
        {
            assert(m.shown()[i as int] == shown@[i as int]@);
            let spans = render_line(shown[i].as_str(), self.query.as_str(), theme);
            out.push(spans);
            i += 1;
        }
        out
    }
}

} // verus!
