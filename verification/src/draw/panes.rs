//! What lies over the tabs: the log, the statistics, a pull, and the screen at the start; and the
//! frame round the tabs.

use crate::chart::{stands_in, stats_areas, StatsAreas};
use crate::geometry::{
    framed, inside_frame, may_split_into, overlay_of, two_columns, two_rows, Direction, Rect, Slot,
};
use crate::log_line::line_spans;
use crate::logs::{LogsModel, LogsPane};
use crate::pull::{pull_overlay, PullModel, PullPopup};
use crate::splash::{splash_areas, splash_stands, SplashAreas, SplashScreen};
use crate::stats::StatsPane;
use crate::theme::{Color, Span, Style, Theme};
use crate::ui::{pruned, shown_toast, Ui, UiModel};
use vstd::prelude::*;

verus! {

/* ---------------- the log ---------------- */

/// The log: its pane, its lines and the line below them.
pub struct LogsBox {
    pub area: Rect,
    pub title: String,
    pub body: Rect,
    pub lines: Vec<Vec<Span>>,
    pub wrap: bool,
    pub foot: Rect,
    pub footer: String,
}

/// The right half of an area.
pub open spec fn is_right_half(pane: Rect, area: Rect) -> bool {
    exists|rest: Rect| #[trigger] is_beside(rest, pane, area)
}

pub open spec fn is_beside(rest: Rect, pane: Rect, area: Rect) -> bool {
    may_split_into(
        area,
        Direction::Columns,
        seq![Slot::Min(1), Slot::Percentage(50)],
        seq![rest, pane],
    )
}

/// A body with one row below it.
pub open spec fn is_footed(inner: Rect, body: Rect, foot: Rect) -> bool {
    may_split_into(
        inner,
        Direction::Rows,
        seq![Slot::Min(1), Slot::Length(1)],
        seq![body, foot],
    )
}

impl LogsModel {
    /// What the log looks like: as many lines as there is room for above the footer, the newest
    /// last.
    pub open spec fn drawn(self, b: LogsBox, area: Rect, theme: Theme) -> bool {
        let (start, end) = self.window(b.body.height as int);
        &&& is_right_half(b.area, area)
        &&& is_footed(framed(b.area), b.body, b.foot)
        &&& b.title@ == self.title()
        &&& b.footer@ == self.footer()
        &&& b.wrap == self.wrap
        &&& b.lines@.len() == end - start
        &&& forall|i: int|
            0 <= i < end - start ==> (#[trigger] b.lines@[i]).deep_view() == line_spans(
                self.shown()[start + i],
                self.query,
                theme,
            )
    }
}

impl LogsPane {
    /// What the log looks like, while it is shown. The number of rows that its lines have is
    /// kept, for the keys that scroll by a page.
    pub fn draw(&mut self, area: Rect, theme: Theme) -> (r: Option<LogsBox>)
        ensures
            match r {
                Some(b) => {
                    &&& old(self)@.visible
                    &&& old(self)@.drawn(b, area, theme)
                    &&& final(self)@ == (LogsModel {
                        last_view_rows: b.body.height as usize,
                        ..old(self)@
                    })
                },
                None => !old(self)@.visible && final(self)@ == old(self)@,
            },
    {
        if !self.visible {
            return None;
        }
        let (rest, pane) = two_columns(area, Slot::Min(1), Slot::Percentage(50));
        assert(is_beside(rest, pane, area));
        let title = self.title();
        let footer = self.footer();
        let wrap = self.wrap;
        let (body, foot) = two_rows(inside_frame(pane), Slot::Min(1), Slot::Length(1));
        let lines = self.draw_lines(body.height as usize, theme);
        Some(LogsBox { area: pane, title, body, lines, wrap, foot, footer })
    }
}

/* ---------------- a pull ---------------- */

/// A pull: its box, its lines and the line below them.
pub struct PullBox {
    pub area: Rect,
    pub title: String,
    pub border: Color,
    pub body: Rect,
    pub lines: Vec<Span>,
    pub foot: Rect,
    pub footer: String,
}

impl PullModel {
    pub open spec fn drawn(self, b: PullBox, area: Rect, theme: Theme, tick: u64) -> bool {
        &&& pull_overlay(area) == Some(b.area)
        &&& is_footed(framed(b.area), b.body, b.foot)
        &&& b.title@ == self.heading(tick)
        &&& b.border == self.border(theme)
        &&& b.lines.deep_view() == self.shown_rows(b.body.height as int, theme)
        &&& b.footer@ == self.footer()
    }
}

impl PullPopup {
    /// What the pull looks like, while it is shown and there is room for it.
    pub fn draw(&mut self, area: Rect, theme: Theme, tick: u64) -> (r: Option<PullBox>)
        ensures
            match r {
                Some(b) => {
                    &&& old(self)@.visible
                    &&& old(self)@.drawn(b, area, theme, tick)
                    &&& final(self)@ == (PullModel {
                        view_rows: b.body.height as usize,
                        ..old(self)@
                    })
                },
                None => {
                    &&& !old(self)@.visible || pull_overlay(area) is None
                    &&& final(self)@ == old(self)@
                },
            },
    {
        if !self.visible {
            return None;
        }
        let o = match PullPopup::overlay(area) {
            Some(o) => o,
            None => {
                return None;
            },
        };
        let title = self.heading(tick);
        let border = self.border(theme);
        let footer = self.footer();
        let (body, foot) = two_rows(inside_frame(o), Slot::Min(1), Slot::Length(1));
        let lines = self.shown_rows(body.height as usize, theme);
        Some(PullBox { area: o, title, border, body, lines, foot, footer })
    }
}

/* ---------------- the statistics ---------------- */

impl StatsPane {
    /// Where the cards stand, while they are shown and there is room for them.
    pub fn draw(&self, area: Rect) -> (r: Option<StatsAreas>)
        ensures
            match r {
                Some(a) => self@.visible && stands_in(a, area),
                None => !self@.visible || area.height < 10 || area.width < 30,
            },
    {
        if !self.visible {
            return None;
        }
        stats_areas(area)
    }
}

/* ---------------- the start ---------------- */

impl SplashScreen {
    /// Where the parts of the screen stand, and the line at its foot.
    pub fn draw(&self, area: Rect) -> (r: Option<(SplashAreas, Vec<Span>)>)
        ensures
            match r {
                Some((a, foot)) => splash_stands(a, area) && foot.deep_view() == self@.foot(),
                None => overlay_of(area, 4, 5, 70, 28) is None,
            },
    {
        match splash_areas(area) {
            Some(a) => Some((a, self.foot_line())),
            None => None,
        }
    }
}

/* ---------------- the frame ---------------- */

/// The frame round a tab: where the titles, the tab and the foot stand, which title is marked,
/// and what the foot says.
pub struct UiFrame {
    pub titles: Rect,
    pub body: Rect,
    pub foot: Rect,
    pub selected: usize,
    pub text: String,
    pub style: Style,
}

/// A foot is higher while it shows a message.
pub open spec fn is_frame(f: UiFrame, area: Rect, has_toast: bool) -> bool {
    may_split_into(
        area,
        Direction::Rows,
        seq![
            Slot::Length(3),
            Slot::Min(1),
            Slot::Length(
                if has_toast {
                    3
                } else {
                    2
                },
            ),
        ],
        seq![f.titles, f.body, f.foot],
    )
}

impl Ui {
    /// The frame round the tab.
    pub fn draw(&mut self, area: Rect, now: u64) -> (r: UiFrame)
        ensures
            is_frame(r, area, shown_toast(old(self)@.toasts, now) is Some),
            (r.text@, r.style) == old(self)@.footer(now),
            r.selected == old(self)@.tab_index(),
            final(self)@ == (UiModel { toasts: pruned(old(self)@.toasts, now), ..old(self)@ }),
    {
        let ghost l = self@.toasts;
        let (titles, body, foot) = self.areas(area, now);
        proof {
            crate::ui::old_messages_go(l, now, now);
        }
        let selected = self.selected_index();
        let (text, style) = self.footer(now);
        UiFrame { titles, body, foot, selected, text, style }
    }
}

} // verus!
