//! The popup that follows a pull, shared by the images and the compose tab.
//!
//! A pull of images reports structured lines: a line with a key takes the place of the line that
//! had the key before. A compose pull writes to a terminal, which a [`Screen`] replays.

use crate::geometry::{center, centered, fraction, has_room, Rect};
use crate::key::{KeyCode, KeyEvent};
use crate::screen::{rows, Screen, ScreenView};
use crate::text;
use crate::theme::{colored, span, Color, Span, SpanView, Style, Theme};
use vstd::hash_map::StringHashMap;
use vstd::prelude::*;

verus! {

/// A message of a running pull.
pub enum PullEvent {
    /// A line. With a key, it replaces an earlier line with the same key.
    Line { key: Option<String>, text: String },
    /// A chunk of terminal output.
    Bytes(Vec<u8>),
    /// The whole pull has finished.
    Done { ok: bool, summary: String },
}

#[verifier::ext_equal]
pub enum PullEventView {
    Line { key: Option<Seq<char>>, text: Seq<char> },
    Bytes(Seq<u8>),
    Done { ok: bool, summary: Seq<char> },
}

impl View for PullEvent {
    type V = PullEventView;

    open spec fn view(&self) -> PullEventView {
        match self {
            PullEvent::Line { key, text } => PullEventView::Line {
                key: key.deep_view(),
                text: text@,
            },
            PullEvent::Bytes(b) => PullEventView::Bytes(b@),
            PullEvent::Done { ok, summary } => PullEventView::Done { ok: *ok, summary: summary@ },
        }
    }
}

pub struct PullPopup {
    pub visible: bool,
    pub title: String,
    pub screen: Screen,
    /// The row of each key.
    pub index: StringHashMap<usize>,
    /// `None` while the pull runs, then whether it went well.
    pub finished: Option<bool>,
    pub finished_taken: bool,
    pub summary: String,
    /// How many lines the view is scrolled up from the end.
    pub scroll: usize,
    pub view_rows: usize,
}

#[verifier::ext_equal]
pub struct PullModel {
    pub visible: bool,
    pub title: Seq<char>,
    pub screen: ScreenView,
    pub index: Map<Seq<char>, usize>,
    pub finished: Option<bool>,
    pub finished_taken: bool,
    pub summary: Seq<char>,
    pub scroll: usize,
    pub view_rows: usize,
}

impl View for PullPopup {
    type V = PullModel;

    open spec fn view(&self) -> PullModel {
        PullModel {
            visible: self.visible,
            title: self.title@,
            screen: self.screen@,
            index: self.index@,
            finished: self.finished,
            finished_taken: self.finished_taken,
            summary: self.summary@,
            scroll: self.scroll,
            view_rows: self.view_rows,
        }
    }
}

impl PullModel {
    pub open spec fn idle() -> PullModel {
        PullModel {
            visible: false,
            title: Seq::empty(),
            screen: ScreenView::empty(),
            index: Map::empty(),
            finished: None,
            finished_taken: false,
            summary: Seq::empty(),
            scroll: 0,
            view_rows: 0,
        }
    }

    pub open spec fn started(self, title: Seq<char>) -> PullModel {
        PullModel { visible: true, title, view_rows: self.view_rows, ..PullModel::idle() }
    }

    pub open spec fn with_lines(self, lines: Seq<Seq<char>>) -> PullModel {
        PullModel { screen: ScreenView { lines, ..self.screen }, ..self }
    }

    /// A structured line: it is added, or takes the place of the line of its key.
    pub open spec fn keyed(self, key: Option<Seq<char>>, text: Seq<char>) -> PullModel {
        let n = self.screen.lines.len();
        let added = self.with_lines(self.screen.lines.push(text));
        match key {
            Some(k) => if self.index.contains_key(k) && self.index[k] < n {
                self.with_lines(self.screen.lines.update(self.index[k] as int, text))
            } else {
                PullModel { index: self.index.insert(k, n as usize), ..added }
            },
            None => added,
        }
    }

    pub open spec fn on_event(self, ev: PullEventView) -> PullModel {
        match ev {
            PullEventView::Line { key, text } => self.keyed(key, text),
            PullEventView::Bytes(b) => PullModel { screen: self.screen.fed(b), ..self },
            PullEventView::Done { ok, summary } => PullModel {
                finished: Some(ok),
                summary,
                ..self
            },
        }
    }

    /// Whether the pull has finished, told once.
    pub open spec fn take_finished(self) -> (PullModel, Option<bool>) {
        if self.finished is Some && !self.finished_taken {
            (PullModel { finished_taken: true, ..self }, self.finished)
        } else {
            (self, None)
        }
    }

    pub open spec fn max_scroll(self) -> int {
        if self.screen.lines.len() == 0 {
            0
        } else {
            self.screen.lines.len() - 1
        }
    }

    pub open spec fn page_step(self) -> int {
        if self.view_rows <= 2 {
            1
        } else {
            self.view_rows - 1
        }
    }

    pub open spec fn scrolled(self, to: int) -> PullModel {
        PullModel {
            scroll: (if to < 0 {
                0
            } else {
                to
            }) as usize,
            ..self
        }
    }

    /// Scrolled up by `n` lines, but not beyond the first.
    pub open spec fn scrolled_up(self, n: int) -> PullModel {
        self.scrolled(
            if self.scroll + n < self.max_scroll() {
                self.scroll + n
            } else {
                self.max_scroll()
            },
        )
    }

    /// A key is pressed. The popup is closed by escape and `q`.
    pub open spec fn on_key(self, key: KeyEvent) -> PullModel {
        match key.code {
            KeyCode::Esc => PullModel { visible: false, ..self },
            KeyCode::Up => self.scrolled_up(1),
            KeyCode::Down => self.scrolled(self.scroll - 1),
            KeyCode::PageUp => self.scrolled_up(self.page_step()),
            KeyCode::PageDown => self.scrolled(self.scroll - self.page_step()),
            KeyCode::Home => self.scrolled(self.max_scroll()),
            KeyCode::End => self.scrolled(0),
            KeyCode::Char(c) => if c == 'q' {
                PullModel { visible: false, ..self }
            } else if c == 'k' {
                self.scrolled_up(1)
            } else if c == 'j' {
                self.scrolled(self.scroll - 1)
            } else if c == 'g' {
                self.scrolled(self.max_scroll())
            } else if c == 'G' {
                self.scrolled(0)
            } else {
                self
            },
            _ => self,
        }
    }

    /// The lines that are shown where there is room for `max`.
    pub open spec fn window(self, max: int) -> (int, int) {
        let n = self.screen.lines.len() as int;
        let end = if self.scroll < n {
            n - self.scroll
        } else {
            0
        };
        (
            if max < end {
                end - max
            } else {
                0
            },
            end,
        )
    }

    /// The title, with the state of the pull.
    pub open spec fn heading(self, tick: u64) -> Seq<char> {
        match self.finished {
            None => spinner_frame(tick) + " "@ + self.title + " "@ + spinner_frame(tick),
            Some(true) => "✅ "@ + self.title,
            Some(false) => "❌ "@ + self.title,
        }
    }

    pub open spec fn border(self, theme: Theme) -> Color {
        match self.finished {
            None => theme.accent,
            Some(true) => theme.ok,
            Some(false) => theme.err,
        }
    }

    pub open spec fn footer(self) -> Seq<char> {
        match self.finished {
            None => "  pulling…  esc: cancel • ↑/↓/PgUp/PgDn: scroll"@,
            Some(_) => "  "@ + self.summary + " — esc: close • ↑/↓: scroll"@,
        }
    }

    /// A row as it is shown.
    pub open spec fn shown_row(self, i: int, theme: Theme) -> SpanView {
        let t = text::drop_white_end(self.screen.lines[i]);
        span(t, line_look(t, theme))
    }

    pub open spec fn shown_rows(self, max: int, theme: Theme) -> Seq<SpanView> {
        let (start, end) = self.window(max);
        Seq::new((end - start) as nat, |i: int| self.shown_row(start + i, theme))
    }
}

/// The end of a pull is told exactly once: after it has been told, it is not told again, whatever
/// else the pull reports.
pub proof fn finish_is_told_once(p: PullModel, ev: PullEventView)
    ensures
        p.finished is Some && !p.finished_taken ==> p.take_finished().1 == p.finished,
        p.take_finished().1 is Some ==> p.take_finished().0.take_finished().1 is None
            && p.take_finished().0.on_event(ev).take_finished().1 is None,
        p.finished is None ==> p.take_finished().1 is None,
{
}

/// A new pull can be told of again.
pub proof fn next_pull_is_told_again(p: PullModel, title: Seq<char>, ok: bool, summary: Seq<char>)
    ensures
        p.started(title).take_finished().1 is None,
        p.started(title).on_event(PullEventView::Done { ok, summary }).take_finished().1 == Some(ok),
{
}

/// Reports with one key collapse onto one line, which shows the last of them.
pub proof fn reports_collapse(p: PullModel, key: Seq<char>, a: Seq<char>, b: Seq<char>)
    requires
        p.screen.lines.len() < usize::MAX,
    ensures
        ({
            let q = p.keyed(Some(key), a);
            let r = q.keyed(Some(key), b);
            &&& r.screen.lines.len() == q.screen.lines.len()
            &&& r.index == q.index
            &&& r.screen.lines[q.index[key] as int] == b
            &&& r == p.keyed(Some(key), b)
        }),
{
    let q = p.keyed(Some(key), a);
    let r = q.keyed(Some(key), b);
    let n = p.screen.lines.len() as int;
    if p.index.contains_key(key) && p.index[key] < n {
        assert(r.screen.lines == p.screen.lines.update(p.index[key] as int, b));
    } else {
        assert(q.index[key] == n);
        assert(r.screen.lines == p.screen.lines.push(b));
    }
}

/// The frames of the spinner.
pub open spec fn spinner_frame(tick: u64) -> Seq<char> {
    match tick % 10 {
        0 => "⠋"@,
        1 => "⠙"@,
        2 => "⠹"@,
        3 => "⠸"@,
        4 => "⠼"@,
        5 => "⠴"@,
        6 => "⠦"@,
        7 => "⠧"@,
        8 => "⠇"@,
        _ => "⠏"@,
    }
}

pub fn spinner(tick: u64) -> (r: String)
    ensures
        r@ == spinner_frame(tick),
{
    match tick % 10 {
        0 => "⠋".to_owned(),
        1 => "⠙".to_owned(),
        2 => "⠹".to_owned(),
        3 => "⠸".to_owned(),
        4 => "⠼".to_owned(),
        5 => "⠴".to_owned(),
        6 => "⠦".to_owned(),
        7 => "⠧".to_owned(),
        8 => "⠇".to_owned(),
        _ => "⠏".to_owned(),
    }
}

/// How a line is shown: errors and completed steps stand out.
pub open spec fn line_look(t: Seq<char>, theme: Theme) -> Style {
    if text::begins(t, "❌"@) {
        colored(theme.err)
    } else if text::holds(t, "complete"@) || text::holds(t, "Pulled"@) || text::holds(
        t,
        "Already exists"@,
    ) || text::holds(t, "up to date"@) || text::holds(t, "Downloaded"@) {
        colored(theme.ok)
    } else {
        colored(theme.fg)
    }
}

pub fn line_style(t: &str, theme: Theme) -> (r: Style)
    ensures
        r == line_look(t@, theme),
{
    if text::starts_with(t, "❌") {
        Style::fg(theme.err)
    } else if text::contains(t, "complete") || text::contains(t, "Pulled") || text::contains(
        t,
        "Already exists",
    ) || text::contains(t, "up to date") || text::contains(t, "Downloaded") {
        Style::fg(theme.ok)
    } else {
        Style::fg(theme.fg)
    }
}

/// Where the popup lies: four fifths of the area, at least sixty by twelve cells, and never more
/// than the area.
pub open spec fn pull_overlay(area: Rect) -> Option<Rect> {
    let w = fraction(area.width as int, 4, 5, 60);
    let h = fraction(area.height as int, 4, 5, 12);
    let w2 = if w < area.width {
        w
    } else {
        area.width as int
    };
    let h2 = if h < area.height {
        h
    } else {
        area.height as int
    };
    if area.width * 4 <= u16::MAX && area.height * 4 <= u16::MAX && has_room(area, w2, h2) {
        Some(centered(area, w2, h2))
    } else {
        None
    }
}

impl PullPopup {
    pub fn new() -> (r: PullPopup)
        ensures
            r@ == PullModel::idle(),
    {
        PullPopup {
            visible: false,
            title: String::new(),
            screen: Screen::new(),
            index: StringHashMap::new(),
            finished: None,
            finished_taken: false,
            summary: String::new(),
            scroll: 0,
            view_rows: 0,
        }
    }

    /// Opens the popup for a new pull.
    pub fn start(&mut self, title: String)
        ensures
            final(self)@ == old(self)@.started(title@),
    {
        self.title = title;
        self.screen = Screen::new();
        self.index = StringHashMap::new();
        self.finished = None;
        self.finished_taken = false;
        self.summary = String::new();
        self.scroll = 0;
        self.visible = true;
    }

    /// Returns `Some(ok)` exactly once after the pull has finished.
    pub fn take_finished(&mut self) -> (r: Option<bool>)
        ensures
            (final(self)@, r) == old(self)@.take_finished(),
    {
        match self.finished {
            Some(ok) => {
                if self.finished_taken {
                    None
                } else {
                    self.finished_taken = true;
                    Some(ok)
                }
            },
            None => None,
        }
    }

    fn max_scroll(&self) -> (r: usize)
        ensures
            r == self@.max_scroll(),
    {
        assert(rows(self.screen.lines@).len() == self.screen.lines@.len());
        self.screen.lines.len().saturating_sub(1)
    }

    fn page_step(&self) -> (r: usize)
        ensures
            r == self@.page_step(),
    {
        if self.view_rows <= 2 {
            1
        } else {
            self.view_rows - 1
        }
    }

    fn scroll_up(&mut self, n: usize)
        ensures
            final(self)@ == old(self)@.scrolled_up(n as int),
    {
        let top = self.max_scroll();
        let to: usize = self.scroll.saturating_add(n);
        self.scroll = if to < top {
            to
        } else {
            top
        };
    }

    fn scroll_down(&mut self, n: usize)
        ensures
            final(self)@ == old(self)@.scrolled(old(self)@.scroll - n),
    {
        self.scroll = self.scroll.saturating_sub(n);
    }

    /// A key is pressed. Where the popup is closed, the pull has to be given up.
    pub fn on_key(&mut self, key: KeyEvent)
        ensures
            final(self)@ == old(self)@.on_key(key),
    {
        match key.code {
            KeyCode::Esc => {
                self.visible = false;
            },
            KeyCode::Up => self.scroll_up(1),
            KeyCode::Down => self.scroll_down(1),
            KeyCode::PageUp => {
                let n = self.page_step();
                self.scroll_up(n);
            },
            KeyCode::PageDown => {
                let n = self.page_step();
                self.scroll_down(n);
            },
            KeyCode::Home => {
                self.scroll = self.max_scroll();
            },
            KeyCode::End => {
                self.scroll = 0;
            },
            KeyCode::Char(c) => {
                if c == 'q' {
                    self.visible = false;
                } else if c == 'k' {
                    self.scroll_up(1);
                } else if c == 'j' {
                    self.scroll_down(1);
                } else if c == 'g' {
                    self.scroll = self.max_scroll();
                } else if c == 'G' {
                    self.scroll = 0;
                }
            },
            _ => {},
        }
    }

    /// Adds a line, or overwrites the line of its key.
    pub fn apply_keyed(&mut self, key: Option<String>, text: String)
        ensures
            final(self)@ == old(self)@.keyed(key.deep_view(), text@),
    {
        let chars = text::chars_of(text.as_str());
        let ghost before = rows(self.screen.lines@);
        assert(before.len() == self.screen.lines@.len());
        let n: usize = self.screen.lines.len();
        match key {
            Some(k) => {
                let known: Option<usize> = match self.index.get(k.as_str()) {
                    Some(r) => if *r < n {
                        Some(*r)
                    } else {
                        None
                    },
                    None => None,
                };
                match known {
                    Some(r) => {
                        self.screen.lines[r] = chars;
                        assert(rows(self.screen.lines@) == before.update(r as int, text@));
                    },
                    None => {
                        self.index.insert(k, n);
                        self.screen.lines.push(chars);
                        assert(rows(self.screen.lines@) == before.push(text@));
                    },
                }
            },
            None => {
                self.screen.lines.push(chars);
                assert(rows(self.screen.lines@) == before.push(text@));
            },
        }
    }

    /// Takes a message of the pull.
    pub fn on_event(&mut self, ev: PullEvent)
        ensures
            final(self)@ == old(self)@.on_event(ev@),
    {
        match ev {
            PullEvent::Line { key, text } => self.apply_keyed(key, text),
            PullEvent::Bytes(b) => self.screen.feed(b.as_slice()),
            PullEvent::Done { ok, summary } => {
                self.finished = Some(ok);
                self.summary = summary;
            },
        }
    }

    pub fn heading(&self, tick: u64) -> (r: String)
        ensures
            r@ == self@.heading(tick),
    {
        match self.finished {
            None => {
                let spin = spinner(tick);
                let mut s = text::cat3(spin.as_str(), " ", self.title.as_str());
                s.append(" ");
                s.append(spin.as_str());
                s
            },
            Some(ok) => {
                if ok {
                    text::cat("✅ ", self.title.as_str())
                } else {
                    text::cat("❌ ", self.title.as_str())
                }
            },
        }
    }

    pub fn border(&self, theme: Theme) -> (r: Color)
        ensures
            r == self@.border(theme),
    {
        match self.finished {
            None => theme.accent,
            Some(ok) => if ok {
                theme.ok
            } else {
                theme.err
            },
        }
    }

    pub fn footer(&self) -> (r: String)
        ensures
            r@ == self@.footer(),
    {
        match self.finished {
            None => "  pulling…  esc: cancel • ↑/↓/PgUp/PgDn: scroll".to_owned(),
            Some(_) => text::cat3("  ", self.summary.as_str(), " — esc: close • ↑/↓: scroll"),
        }
    }

    /// The rows that are shown where there is room for `max`, which is remembered as the size of
    /// a page.
    pub fn shown_rows(&mut self, max: usize, theme: Theme) -> (r: Vec<Span>)
        ensures
            final(self)@ == (PullModel { view_rows: max, ..old(self)@ }),
            r.deep_view() == old(self)@.shown_rows(max as int, theme),
    {
        self.view_rows = max;
        let ghost m = old(self)@;
        assert(m.screen.lines.len() == self.screen.lines@.len());
        let end: usize = self.screen.lines.len().saturating_sub(self.scroll);
        let start: usize = end.saturating_sub(max);
        let ghost all = m.shown_rows(max as int, theme);
        assert(m.window(max as int) == (start as int, end as int));
        let mut out: Vec<Span> = Vec::new();
        let mut i: usize = start;
        while i < end
            invariant
                start <= i <= end <= self.screen.lines@.len(),
                m.screen.lines == rows(self.screen.lines@),
                m.window(max as int) == (start as int, end as int),
                all == m.shown_rows(max as int, theme),
                out.deep_view() == all.take(i - start),
            decreases end - i,
        {
            let t = text::text_of(self.screen.lines[i].as_slice());
            let t = text::trim_end(t.as_str());
            let style = line_style(t.as_str(), theme);
            let s = Span { text: t, style };
            assert(s@ == m.shown_row(i as int, theme));
            let ghost before = out.deep_view();
            out.push(s);
            assert(out.deep_view() == before.push(s@));
            assert(all.take(i + 1 - start) == all.take(i - start).push(all[i - start]));
            i += 1;
        }
        assert(all.take(all.len() as int) == all);
        out
    }

    /// Where the popup lies in an area.
    pub fn overlay(area: Rect) -> (r: Option<Rect>)
        ensures
            r == pull_overlay(area),
    {
        if area.width > 16383 || area.height > 16383 {
            return None;
        }
        let w: u16 = area.width * 4 / 5;
        let h: u16 = area.height * 4 / 5;
        let w: u16 = if w < 60 {
            60
        } else {
            w
        };
        let h: u16 = if h < 12 {
            12
        } else {
            h
        };
        center(
            area,
            if w < area.width {
                w
            } else {
                area.width
            },
            if h < area.height {
                h
            } else {
                area.height
            },
        )
    }
}

/* ---------------- what a pull reports ---------------- */

/// One report of the engine on a pull.
pub struct PullInfo {
    pub id: Option<String>,
    pub error: Option<String>,
    pub status: Option<String>,
    pub progress: Option<String>,
}

/// A report as a line, with the layer's id as its key. An empty report gives none.
pub open spec fn pull_line(image: Seq<char>, info: PullInfo) -> Option<(Option<Seq<char>>, Seq<char>)> {
    match info.error {
        Some(e) => Some((None, "❌ "@ + image + ": "@ + e@)),
        None => {
            let status = match info.status {
                Some(s) => s@,
                None => Seq::empty(),
            };
            if status.len() == 0 {
                None
            } else {
                match info.id {
                    Some(id) => {
                        let line = match info.progress {
                            Some(p) => if p@.len() > 0 {
                                id@ + ": "@ + status + " "@ + p@
                            } else {
                                id@ + ": "@ + status
                            },
                            None => id@ + ": "@ + status,
                        };
                        Some((Some(id@), line))
                    },
                    None => Some((None, status)),
                }
            }
        },
    }
}

/// Turns a report into a line with a key. Returns `None` for an empty one.
pub fn format_pull_info(image: &str, info: &PullInfo) -> (r: Option<(Option<String>, String)>)
    ensures
        r.deep_view() == pull_line(image@, *info),
{
    match &info.error {
        Some(e) => {
            let mut s = text::cat3("❌ ", image, ": ");
            s.append(e.as_str());
            return Some((None, s));
        },
        None => {},
    }
    let status = match &info.status {
        Some(s) => s.clone(),
        None => String::new(),
    };
    if status.as_str().is_empty() {
        return None;
    }
    match &info.id {
        Some(id) => {
            let mut line = text::cat3(id.as_str(), ": ", status.as_str());
            match &info.progress {
                Some(p) => {
                    if !p.as_str().is_empty() {
                        line.append(" ");
                        line.append(p.as_str());
                    }
                },
                None => {},
            }
            Some((Some(id.clone()), line))
        },
        None => Some((None, status)),
    }
}

/// The summary of a pull.
pub open spec fn summary_of(total: nat, had_err: bool) -> Seq<char> {
    if had_err {
        "finished with errors"@
    } else if total == 1 {
        "pull complete"@
    } else {
        "pulled "@ + text::decimal(total) + " images"@
    }
}

/// Images that are pulled one after another.
pub struct PullTask {
    pub images: Vec<String>,
    /// The image that is pulled next.
    pub next: usize,
    pub had_err: bool,
}

impl PullTask {
    pub fn new(images: Vec<String>) -> (r: PullTask)
        ensures
            r.images == images,
            r.next == 0,
            !r.had_err,
    {
        PullTask { images, next: 0, had_err: false }
    }

    /// The next image to pull, and the line that announces it.
    pub fn begin_next(&mut self) -> (r: Option<(String, PullEvent)>)
        ensures
            final(self).images == old(self).images,
            final(self).had_err == old(self).had_err,
            match r {
                Some(p) => {
                    &&& old(self).next < old(self).images@.len()
                    &&& final(self).next == old(self).next + 1
                    &&& p.0@ == old(self).images@[old(self).next as int]@
                    &&& p.1@ == (PullEventView::Line {
                        key: None,
                        text: "⏬ Pulling "@ + p.0@ + " ("@ + text::decimal(
                            (old(self).next + 1) as nat,
                        ) + "/"@ + text::decimal(old(self).images@.len()) + ")"@,
                    })
                },
                None => old(self).next >= old(self).images@.len() && final(self).next == old(
                    self,
                ).next,
            },
    {
        let total: usize = self.images.len();
        if self.next >= total {
            return None;
        }
        let image = self.images[self.next].clone();
        self.next = self.next + 1;
        let mut line = text::cat3("⏬ Pulling ", image.as_str(), " (");
        line.append(text::number(self.next as u64).as_str());
        line.append("/");
        line.append(text::number(total as u64).as_str());
        line.append(")");
        Some((image, PullEvent::Line { key: None, text: line }))
    }

    /// Takes a report on an image. An error ends the pull of this image, and is remembered.
    pub fn on_item(&mut self, image: &str, item: Result<PullInfo, String>) -> (r: (
        Option<PullEvent>,
        bool,
    ))
        ensures
            final(self).images == old(self).images,
            final(self).next == old(self).next,
            match item {
                Ok(info) => {
                    &&& final(self).had_err == old(self).had_err
                    &&& r.1
                    &&& (match r.0 {
                        Some(ev) => pull_line(image@, info) matches Some(l) && ev@
                            == (PullEventView::Line { key: l.0, text: l.1 }),
                        None => pull_line(image@, info) is None,
                    })
                },
                Err(e) => {
                    &&& final(self).had_err
                    &&& !r.1
                    &&& r.0 matches Some(ev) && ev@ == (PullEventView::Line {
                        key: None,
                        text: "❌ "@ + image@ + ": "@ + e@,
                    })
                },
            },
    {
        match item {
            Ok(info) => {
                match format_pull_info(image, &info) {
                    Some(l) => (Some(PullEvent::Line { key: l.0, text: l.1 }), true),
                    None => (None, true),
                }
            },
            Err(e) => {
                self.had_err = true;
                let mut s = text::cat3("❌ ", image, ": ");
                s.append(e.as_str());
                (Some(PullEvent::Line { key: None, text: s }), false)
            },
        }
    }

    /// The last message.
    pub fn done(&self) -> (r: PullEvent)
        ensures
            r@ == (PullEventView::Done {
                ok: !self.had_err,
                summary: summary_of(self.images@.len(), self.had_err),
            }),
    {
        let total: usize = self.images.len();
        let summary = if self.had_err {
            "finished with errors".to_owned()
        } else if total == 1 {
            "pull complete".to_owned()
        } else {
            text::cat3("pulled ", text::number(total as u64).as_str(), " images")
        };
        PullEvent::Done { ok: !self.had_err, summary }
    }
}

/// What is shown before a compose pull writes anything.
pub fn compose_heading(project: &str) -> (r: String)
    ensures
        r@ == "⏬ docker compose pull ("@ + project@ + ")\r\n"@,
{
    text::cat3("⏬ docker compose pull (", project, ")\r\n")
}

/// What is shown where a compose pull cannot be started.
pub fn compose_start_failure(e: &str) -> (r: String)
    ensures
        r@ == "❌ failed to start docker compose: "@ + e@ + "\r\n"@,
{
    text::cat3("❌ failed to start docker compose: ", e, "\r\n")
}

/// The arguments of a compose pull: its progress is asked for as a terminal would get it.
pub fn compose_pull_args(file_name: &str) -> (r: Vec<String>)
    ensures
        r.deep_view() == seq!["compose"@, "--ansi"@, "always"@, "-f"@, file_name@, "pull"@],
{
    let mut args: Vec<String> = Vec::new();
    text::push_text(&mut args, "compose".to_owned());
    text::push_text(&mut args, "--ansi".to_owned());
    text::push_text(&mut args, "always".to_owned());
    text::push_text(&mut args, "-f".to_owned());
    text::push_text(&mut args, file_name.to_owned());
    text::push_text(&mut args, "pull".to_owned());
    assert(args.deep_view() == seq!["compose"@, "--ansi"@, "always"@, "-f"@, file_name@, "pull"@]);
    args
}

/// How a compose pull ended: `None` where it could not be started.
pub fn compose_done(ended: Option<bool>) -> (r: PullEvent)
    ensures
        r@ == (match ended {
            Some(true) => PullEventView::Done { ok: true, summary: "pull complete"@ },
            Some(false) => PullEventView::Done { ok: false, summary: "finished with errors"@ },
            None => PullEventView::Done { ok: false, summary: "failed to start"@ },
        }),
{
    match ended {
        Some(ok) => {
            if ok {
                PullEvent::Done { ok: true, summary: "pull complete".to_owned() }
            } else {
                PullEvent::Done { ok: false, summary: "finished with errors".to_owned() }
            }
        },
        None => PullEvent::Done { ok: false, summary: "failed to start".to_owned() },
    }
}

} // verus!
