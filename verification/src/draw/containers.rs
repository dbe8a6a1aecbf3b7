//! What the containers tab looks like.

use crate::containers::actions::{phase_label, ActionKind, AnimModel};
use crate::containers::summary::{ContainerModel, ContainerState, ContainerSummary, SortKey};
use crate::containers::util::{middle_cut, truncate_middle};
use crate::containers::view::{ContainersModel, ContainersView, Popup, PopupView};
use crate::draw::page::{
    box_in, box_view, is_page, look_of, make_box, place_question, push_filter, push_marked, push_plain,
    push_sort, push_span, push_spinner, question_area, row_look, sort_span, with_filter, with_marked,
    with_spinner, BoxView, Page, PopupBox, Row, RowView,
};
use crate::geometry::{
    may_split_into, overlay, overlay_of, three_rows, two_rows, Direction, Rect, Slot,
};
use crate::num::{clamped, less_by};
use crate::order::positions;
use crate::text;
use crate::theme::{bold, colored, plain_style, span, Color, Span, SpanView, Style, Theme};
use vstd::prelude::*;

verus! {

/* ---------------- rows ---------------- */

pub open spec fn sort_name(k: SortKey) -> Seq<char> {
    match k {
        SortKey::Name => "name"@,
        SortKey::Image => "image"@,
        SortKey::State => "state"@,
        SortKey::Created => "created"@,
        SortKey::Ports => "ports"@,
    }
}

/// The sign of a state. That of a container that runs has a colour which comes and goes.
pub open spec fn icon(s: Option<ContainerState>, theme: Theme, pulse: Color) -> SpanView {
    match s {
        Some(ContainerState::Running) => span("●"@, colored(pulse)),
        Some(ContainerState::Paused) => span("■"@, colored(theme.warn)),
        Some(ContainerState::Exited) => span("●"@, colored(theme.err)),
        _ => span("·"@, plain_style()),
    }
}

/// The name of a state, in capitals.
pub open spec fn badge_word(s: Option<ContainerState>) -> Seq<char> {
    match s {
        Some(ContainerState::Empty) => ""@,
        Some(ContainerState::Created) => "CREATED"@,
        Some(ContainerState::Running) => "RUNNING"@,
        Some(ContainerState::Paused) => "PAUSED"@,
        Some(ContainerState::Restarting) => "RESTARTING"@,
        Some(ContainerState::Exited) => "EXITED"@,
        Some(ContainerState::Removing) => "REMOVING"@,
        Some(ContainerState::Dead) => "DEAD"@,
        None => "UNKNOWN"@,
    }
}

pub open spec fn badge_color(s: Option<ContainerState>, theme: Theme) -> Color {
    match s {
        Some(ContainerState::Running) => theme.ok,
        Some(ContainerState::Paused) => theme.warn,
        Some(ContainerState::Exited) => theme.err,
        _ => theme.muted,
    }
}

pub open spec fn badge(s: Option<ContainerState>, theme: Theme) -> SpanView {
    span(
        " "@ + badge_word(s) + " "@,
        Style {
            fg: Some(Color::Black),
            bg: Some(badge_color(s, theme)),
            bold: true,
            dim: false,
        },
    )
}

pub open spec fn cells(c: ContainerModel, marked: bool, theme: Theme, pulse: Color) -> Seq<SpanView> {
    seq![
        icon(c.state, theme, pulse),
        span(
            (if marked {
                "▣ "@
            } else {
                "▢ "@
            }) + c.name(),
            plain_style(),
        ),
        span(middle_cut(c.image_text(), 36), plain_style()),
        badge(c.state, theme),
        span(c.ports_text("  "@), plain_style()),
    ]
}

fn make_icon(s: Option<ContainerState>, theme: Theme, pulse: Color) -> (r: Span)
    ensures
        r@ == icon(s, theme, pulse),
{
    match s {
        Some(ContainerState::Running) => Span::new("●", Style::fg(pulse)),
        Some(ContainerState::Paused) => Span::new("■", Style::fg(theme.warn)),
        Some(ContainerState::Exited) => Span::new("●", Style::fg(theme.err)),
        _ => Span::new("·", Style::plain()),
    }
}

fn make_badge(s: Option<ContainerState>, theme: Theme) -> (r: Span)
    ensures
        r@ == badge(s, theme),
{
    let (word, color) = match s {
        Some(ContainerState::Empty) => ("", theme.muted),
        Some(ContainerState::Created) => ("CREATED", theme.muted),
        Some(ContainerState::Running) => ("RUNNING", theme.ok),
        Some(ContainerState::Paused) => ("PAUSED", theme.warn),
        Some(ContainerState::Restarting) => ("RESTARTING", theme.muted),
        Some(ContainerState::Exited) => ("EXITED", theme.err),
        Some(ContainerState::Removing) => ("REMOVING", theme.muted),
        Some(ContainerState::Dead) => ("DEAD", theme.muted),
        None => ("UNKNOWN", theme.muted),
    };
    Span::new(
        text::cat3(" ", word, " ").as_str(),
        Style { fg: Some(Color::Black), bg: Some(color), bold: true, dim: false },
    )
}

/* ---------------- the page ---------------- */

impl ContainersModel {
    pub open spec fn bar(self, now: u64) -> Seq<SpanView> {
        let keys = seq![
            span(
                "  a: all/running • o/O: sort • space/↵: start/stop • R: restart • p/P: pause • b: shell • x: select • A: apply • C: clear • i: inspect • l: logs • t: stats • S: save • d/D: delete "@,
                plain_style(),
            ),
        ];
        let sorted = with_filter(keys, self.query, self.theme).push(
            sort_span(sort_name(self.sort_key), self.sort_asc, self.theme),
        );
        with_spinner(
            with_marked(sorted, self.selected_ids.len(), self.theme),
            now,
            self.last_refresh,
            self.tick,
            colored(self.theme.accent),
        )
    }

    /// Is a row marked?
    pub open spec fn is_marked(self, c: ContainerModel) -> bool {
        self.selected_ids.contains(
            match c.id {
                Some(id) => id,
                None => Seq::empty(),
            },
        )
    }

    pub open spec fn table(self, pulse: Color) -> Seq<RowView> {
        let v = self.visible();
        Seq::new(
            v.len(),
            |i: int|
                RowView {
                    cells: cells(
                        self.rows[v[i]],
                        self.is_marked(self.rows[v[i]]),
                        self.theme,
                        pulse,
                    ),
                    look: look_of(i, self.selected),
                },
        )
    }

    pub open spec fn popup_box(self, area: Rect) -> Option<BoxView> {
        match self.popup {
            Some(PopupView::Inspect(t)) => box_in(
                overlay_of(area, 3, 4, 40, 12),
                "Inspect (esc to close)"@,
                self.theme.accent,
                t,
            ),
            Some(PopupView::ConfirmDelete { items }) => box_in(
                question_area(area, 8),
                "Delete? (y/n/esc)"@,
                self.theme.err,
                if items.len() == 1 {
                    "Confirm deletion of "@ + items[0].name + "?"@
                } else {
                    "Confirm deletion of "@ + text::decimal(items.len()) + " containers?"@
                },
            ),
            None => None,
        }
    }
}

impl ContainersView {
    fn make_bar(&self, now: u64) -> (r: Vec<Span>)
        ensures
            r.deep_view() == self@.bar(now),
    {
        let theme = self.theme;
        let mut r: Vec<Span> = Vec::new();
        assert(r.deep_view() == Seq::<SpanView>::empty());
        push_plain(
            &mut r,
            "  a: all/running • o/O: sort • space/↵: start/stop • R: restart • p/P: pause • b: shell • x: select • A: apply • C: clear • i: inspect • l: logs • t: stats • S: save • d/D: delete ",
        );
        assert(r.deep_view() == seq![r.deep_view()[0]]);
        push_filter(&mut r, self.query.as_str(), theme);
        let name = match self.sort_key {
            SortKey::Name => "name",
            SortKey::Image => "image",
            SortKey::State => "state",
            SortKey::Created => "created",
            SortKey::Ports => "ports",
        };
        push_sort(&mut r, name, self.sort_asc, theme);
        push_marked(&mut r, self.selected_ids.len(), theme);
        push_spinner(&mut r, now, self.last_refresh, self.tick, Style::fg(theme.accent));
        r
    }

    fn make_cells(&self, c: &ContainerSummary, pulse: Color) -> (r: Vec<Span>)
        ensures
            r.deep_view() == cells(c@, self@.is_marked(c@), self.theme, pulse),
    {
        let none: String = String::new();
        let marked = match &c.id {
            Some(id) => self.selected_ids.contains(id.as_str()),
            None => self.selected_ids.contains(none.as_str()),
        };
        let checkbox = if marked {
            "▣ "
        } else {
            "▢ "
        };
        let mut r: Vec<Span> = Vec::new();
        let sign = make_icon(c.state, self.theme, pulse);
        r.push(sign);
        assert(r.deep_view() == seq![sign@]);
        push_plain(&mut r, text::cat(checkbox, c.name().as_str()).as_str());
        push_plain(&mut r, truncate_middle(c.image_text().as_str(), 36).as_str());
        let ghost before = r.deep_view();
        let mark = make_badge(c.state, self.theme);
        r.push(mark);
        assert(r.deep_view() == before.push(mark@));
        push_plain(&mut r, c.ports_text("  ").as_str());
        assert(r.deep_view() == cells(c@, self@.is_marked(c@), self.theme, pulse));
        r
    }

    fn make_table(&self, pulse: Color) -> (r: Vec<Row>)
        ensures
            r.deep_view() == self@.table(pulse),
    {
        let vis = self.visible_indices();
        let ghost m = self@;
        let ghost v = m.visible();
        let ghost all = m.table(pulse);
        let mut out: Vec<Row> = Vec::new();
        let mut i: usize = 0;
        assert(positions(vis@).len() == vis@.len());
        assert(out.deep_view() == all.take(0));
        while i < vis.len()
            invariant
                i <= vis@.len(),
                m == self@,
                v == m.visible(),
                positions(vis@) == v,
                v.len() == vis@.len(),
                forall|k: int| 0 <= k < vis@.len() ==> #[trigger] vis@[k] < self.rows@.len(),
                all == m.table(pulse),
                out.deep_view() == all.take(i as int),
            decreases vis@.len() - i,
        {
            let at: usize = vis[i];
            assert(v[i as int] == at);
            assert(m.rows[at as int] == self.rows@[at as int]@);
            let ghost before = out.deep_view();
            let row = Row { cells: self.make_cells(&self.rows[at], pulse), look: row_look(i, self.selected) };
            out.push(row);
            assert(out.deep_view() == before.push(row@));
            assert(all.take(i + 1) == all.take(i as int).push(all[i as int]));
            i += 1;
        }
        assert(all.take(vis@.len() as int) == all);
        out
    }

    fn make_popup(&self, area: Rect) -> (r: Option<PopupBox>)
        ensures
            box_view(r) == self@.popup_box(area),
    {
        match &self.popup {
            Some(Popup::Inspect(t)) => make_box(
                overlay(area, 3, 4, 40, 12),
                "Inspect (esc to close)",
                self.theme.accent,
                t.as_str(),
            ),
            Some(Popup::ConfirmDelete { items }) => {
                assert(items.deep_view().len() == items@.len());
                let n: usize = items.len();
                let msg = if n == 1 {
                    assert(items.deep_view()[0] == items@[0]@);
                    text::cat3("Confirm deletion of ", items[0].name.as_str(), "?")
                } else {
                    text::cat3(
                        "Confirm deletion of ",
                        text::number(n as u64).as_str(),
                        " containers?",
                    )
                };
                make_box(
                    place_question(area, 8),
                    "Delete? (y/n/esc)",
                    self.theme.err,
                    msg.as_str(),
                )
            },
            None => None,
        }
    }

    /// What the tab looks like, but for an action that is shown and for the shell. `pulse` is
    /// the colour of the sign of a container that runs.
    pub fn draw(&self, area: Rect, now: u64, pulse: Color) -> (r: Page)
        ensures
            is_page(area, r.head, r.body),
            r.bar.deep_view() == self@.bar(now),
            r.rows.deep_view() == self@.table(pulse),
            box_view(r.popup) == self@.popup_box(area),
    {
        let (head, body) = two_rows(area, Slot::Length(3), Slot::Min(1));
        Page {
            head,
            body,
            bar: self.make_bar(now),
            rows: self.make_table(pulse),
            popup: self.make_popup(area),
        }
    }

    /// The box of the action that is shown.
    pub fn draw_action(&self, area: Rect) -> (r: Option<ActionBox>)
        ensures
            match self@.anim {
                Some(a) => match r {
                    Some(b) => shows_action(b, area, a, self@.theme),
                    None => action_area(area) is None,
                },
                None => r is None,
            },
    {
        match &self.anim {
            Some(a) => {
                let o = match place_action(area) {
                    Some(o) => o,
                    None => {
                        return None;
                    },
                };
                let (name_area, scene, progress) = three_rows(
                    Rect {
                        x: o.x.saturating_add(2),
                        y: o.y.saturating_add(1),
                        width: o.width.saturating_sub(4),
                        height: o.height.saturating_sub(2),
                    },
                    Slot::Length(2),
                    Slot::Min(o.height.saturating_sub(7)),
                    Slot::Length(5),
                );
                let mut name: Vec<Span> = Vec::new();
                push_plain(&mut name, " ");
                push_span(&mut name, a.name.as_str(), Style::bold(self.theme.fg));
                assert(name.deep_view() == seq![
                    span(" "@, plain_style()),
                    span(a.name@, bold(self.theme.fg)),
                ]);
                Some(
                    ActionBox {
                        area: o,
                        title: a.title(),
                        name_area,
                        name,
                        scene,
                        progress,
                        progress_title: a.bar_title(),
                    },
                )
            },
            None => None,
        }
    }
}

/* ---------------- an action that is shown ---------------- */

/// A box with a rocket, and a bar below it.
pub struct ActionBox {
    pub area: Rect,
    pub title: String,
    pub name_area: Rect,
    pub name: Vec<Span>,
    pub scene: Rect,
    pub progress: Rect,
    pub progress_title: String,
}

/// The area of the box: a third of the width, between 38 and 60 cells, and below the bar.
pub open spec fn action_area(area: Rect) -> Option<Rect> {
    let w = clamped(area.width as int / 3, 38, 60);
    let h = clamped(less_by(area.height as int, 6), 18, 999);
    let x = area.x + (area.width - w) / 2;
    let y = area.y + 3;
    if w <= area.width && x <= u16::MAX && y <= u16::MAX {
        Some(Rect { x: x as u16, y: y as u16, width: w as u16, height: h as u16 })
    } else {
        None
    }
}

fn place_action(area: Rect) -> (r: Option<Rect>)
    ensures
        r == action_area(area),
{
    let third: u16 = area.width / 3;
    let w: u16 = if third < 38 {
        38
    } else if third > 60 {
        60
    } else {
        third
    };
    let high: u16 = area.height.saturating_sub(6);
    let h: u16 = if high < 18 {
        18
    } else if high > 999 {
        999
    } else {
        high
    };
    if w > area.width {
        return None;
    }
    let x: u32 = area.x as u32 + ((area.width - w) / 2) as u32;
    let y: u32 = area.y as u32 + 3;
    if x > 65535 || y > 65535 {
        return None;
    }
    Some(Rect { x: x as u16, y: y as u16, width: w, height: h })
}

pub open spec fn shifted(n: u16, by: int) -> u16 {
    (if n + by > u16::MAX {
        u16::MAX as int
    } else {
        n + by
    }) as u16
}

/// What a box leaves for the name, the scene and the bar.
pub open spec fn action_inner(o: Rect) -> Rect {
    Rect {
        x: shifted(o.x, 2),
        y: shifted(o.y, 1),
        width: less_by(o.width as int, 4) as u16,
        height: less_by(o.height as int, 2) as u16,
    }
}

/// A box shows an action.
pub open spec fn shows_action(b: ActionBox, area: Rect, a: AnimModel, theme: Theme) -> bool {
    &&& action_area(area) == Some(b.area)
    &&& may_split_into(
        action_inner(b.area),
        Direction::Rows,
        seq![
            Slot::Length(2),
            Slot::Min(less_by(b.area.height as int, 7) as u16),
            Slot::Length(5),
        ],
        seq![b.name_area, b.scene, b.progress],
    )
    &&& b.title@ == (match a.kind {
        ActionKind::Starting => "Launching…"@,
        ActionKind::Stopping => "Landing…"@,
    })
    &&& b.name.deep_view() == seq![span(" "@, plain_style()), span(a.name, bold(theme.fg))]
    &&& b.progress_title@ == "Progress ("@ + phase_label(a.bar_phase) + ")"@
}

} // verus!
