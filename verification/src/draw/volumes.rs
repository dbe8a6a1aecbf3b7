//! What the volumes tab looks like.

use crate::containers::util::middle_cut;
use crate::draw::page::{
    box_in, box_view, is_page, look_of, make_box, push_filter, push_plain, push_sort, push_spinner,
    row_look, sort_span, with_filter, with_spinner, BoxView, Page, PopupBox, Row, RowView,
};
use crate::geometry::{two_rows, Rect, Slot};
use crate::num::{capped, less_by, smaller};
use crate::order::positions;
use crate::text;
use crate::theme::{bold, plain_style, span, Span, SpanView, Style};
use crate::volumes::{
    volume_cells, Popup, PopupView, SortKey, Volume, VolumeModel, VolumesModel, VolumesView,
};
use vstd::prelude::*;

verus! {

pub open spec fn sort_name(k: SortKey) -> Seq<char> {
    match k {
        SortKey::Name => "name"@,
        SortKey::Driver => "driver"@,
        SortKey::Mountpoint => "mountpoint"@,
        SortKey::CreatedAt => "created"@,
    }
}

pub open spec fn cells(v: VolumeModel) -> Seq<SpanView> {
    seq![
        span(middle_cut(v.name, 30), plain_style()),
        span(v.driver, plain_style()),
        span(middle_cut(v.mountpoint, 40), plain_style()),
        span(v.scope_text(), plain_style()),
    ]
}

/* ---------------- areas ---------------- */

/// An area of a fixed size, in the middle as far as there is room.
pub open spec fn middle_of(area: Rect, w: int, h: int) -> Rect {
    Rect {
        x: capped(area.x + less_by(area.width as int, w) / 2) as u16,
        y: capped(area.y + less_by(area.height as int, h) / 2) as u16,
        width: w as u16,
        height: h as u16,
    }
}

/// Nine tenths of a length, and at least `least`.
pub open spec fn most_of(n: int, least: int) -> int {
    if n * 9 / 10 < least {
        least
    } else {
        n * 9 / 10
    }
}

/// The area of the search line.
pub open spec fn search_area(area: Rect) -> Rect {
    let w = smaller(40, area.width as int);
    Rect {
        x: capped(area.x + less_by(area.width as int, w) / 2) as u16,
        y: capped(area.y + 2) as u16,
        width: w as u16,
        height: 3,
    }
}

fn place_middle(area: Rect, w: u16, h: u16) -> (r: Rect)
    ensures
        r == middle_of(area, w as int, h as int),
{
    Rect {
        x: area.x.saturating_add(area.width.saturating_sub(w) / 2),
        y: area.y.saturating_add(area.height.saturating_sub(h) / 2),
        width: w,
        height: h,
    }
}

fn take_most(n: u16, least: u16) -> (r: u16)
    ensures
        r == most_of(n as int, least as int),
{
    let part: u16 = (n as u32 * 9 / 10) as u16;
    if part < least {
        least
    } else {
        part
    }
}

fn lesser(a: u16, b: u16) -> (r: u16)
    ensures
        r == smaller(a as int, b as int),
{
    if a < b {
        a
    } else {
        b
    }
}

/* ---------------- the page ---------------- */

impl VolumesModel {
    pub open spec fn bar(self, now: u64) -> Seq<SpanView> {
        let keys = seq![
            span("  o/O: sort • i: inspect • d: delete • X: prune unused"@, plain_style()),
        ];
        with_spinner(
            with_filter(keys, self.query, self.theme).push(
                sort_span(sort_name(self.sort_key), self.sort_asc, self.theme),
            ),
            now,
            self.last_refresh,
            self.tick,
            bold(self.theme.accent),
        )
    }

    pub open spec fn table(self) -> Seq<RowView> {
        let v = self.visible();
        Seq::new(
            v.len(),
            |i: int|
                RowView { cells: cells(self.rows[v[i]]), look: look_of(i, self.selected) },
        )
    }

    pub open spec fn popup_box(self, area: Rect) -> Option<BoxView> {
        let w = smaller(60, area.width as int);
        match self.popup {
            Some(PopupView::ConfirmDelete { name }) => box_in(
                Some(middle_of(area, w, 7)),
                " Confirm Delete "@,
                self.theme.warn,
                "Delete volume: "@ + name + "?\n\nPress [y] to confirm, [n] to cancel"@,
            ),
            Some(PopupView::ConfirmPrune) => box_in(
                Some(middle_of(area, w, 8)),
                " Confirm Prune "@,
                self.theme.warn,
                "Prune all unused volumes?\n\nThis will remove volumes not referenced by any container.\n\nPress [y] to confirm, [n] to cancel"@,
            ),
            Some(PopupView::Inspect(t)) => box_in(
                Some(
                    middle_of(
                        area,
                        most_of(area.width as int, 60),
                        most_of(area.height as int, 20),
                    ),
                ),
                " Inspect Volume "@,
                self.theme.accent,
                t,
            ),
            None => None,
        }
    }

    pub open spec fn search_box(self, area: Rect) -> Option<BoxView> {
        if self.searching {
            box_in(
                Some(search_area(area)),
                " Search "@,
                self.theme.accent,
                self.query + "_"@,
            )
        } else {
            None
        }
    }
}

fn make_cells(v: &Volume) -> (r: Vec<Span>)
    ensures
        r.deep_view() == cells(v@),
{
    let (name, driver, mountpoint, scope) = volume_cells(v);
    let mut r: Vec<Span> = Vec::new();
    push_plain(&mut r, name.as_str());
    push_plain(&mut r, driver.as_str());
    push_plain(&mut r, mountpoint.as_str());
    push_plain(&mut r, scope.as_str());
    assert(r.deep_view() == cells(v@));
    r
}

impl VolumesView {
    fn make_bar(&self, now: u64) -> (r: Vec<Span>)
        ensures
            r.deep_view() == self@.bar(now),
    {
        let theme = self.theme;
        let mut r: Vec<Span> = Vec::new();
        assert(r.deep_view() == Seq::<SpanView>::empty());
        push_plain(&mut r, "  o/O: sort • i: inspect • d: delete • X: prune unused");
        assert(r.deep_view() == seq![r.deep_view()[0]]);
        push_filter(&mut r, self.query.as_str(), theme);
        let name = match self.sort_key {
            SortKey::Name => "name",
            SortKey::Driver => "driver",
            SortKey::Mountpoint => "mountpoint",
            SortKey::CreatedAt => "created",
        };
        push_sort(&mut r, name, self.sort_asc, theme);
        push_spinner(&mut r, now, self.last_refresh, self.tick, Style::bold(theme.accent));
        r
    }

    fn make_table(&self) -> (r: Vec<Row>)
        ensures
            r.deep_view() == self@.table(),
    {
        let vis = self.visible_indices();
        let ghost m = self@;
        let ghost v = m.visible();
        let ghost all = m.table();
        let mut out: Vec<Row> = Vec::new();
        let mut i: usize = 0;
        assert(positions(vis@).len() == vis@.len());
        assert(out.deep_view() == all.take(0));
        while i < vis.len()
            invariant
                i <= vis@.len(),
                m == self@,
                v == m.visible(),
                positions(vis@) == v,
                v.len() == vis@.len(),
                forall|k: int| 0 <= k < vis@.len() ==> #[trigger] vis@[k] < self.rows@.len(),
                all == m.table(),
                out.deep_view() == all.take(i as int),
            decreases vis@.len() - i,
        {
            let at: usize = vis[i];
            assert(v[i as int] == at);
            assert(m.rows[at as int] == self.rows@[at as int]@);
            let ghost before = out.deep_view();
            let row = Row { cells: make_cells(&self.rows[at]), look: row_look(i, self.selected) };
            out.push(row);
            assert(out.deep_view() == before.push(row@));
            assert(all.take(i + 1) == all.take(i as int).push(all[i as int]));
            i += 1;
        }
        assert(all.take(vis@.len() as int) == all);
        out
    }

    fn make_popup(&self, area: Rect) -> (r: Option<PopupBox>)
        ensures
            box_view(r) == self@.popup_box(area),
    {
        let w: u16 = lesser(60, area.width);
        match &self.popup {
            Some(Popup::ConfirmDelete { name }) => make_box(
                Some(place_middle(area, w, 7)),
                " Confirm Delete ",
                self.theme.warn,
                text::cat3(
                    "Delete volume: ",
                    name.as_str(),
                    "?\n\nPress [y] to confirm, [n] to cancel",
                ).as_str(),
            ),
            Some(Popup::ConfirmPrune) => make_box(
                Some(place_middle(area, w, 8)),
                " Confirm Prune ",
                self.theme.warn,
                "Prune all unused volumes?\n\nThis will remove volumes not referenced by any container.\n\nPress [y] to confirm, [n] to cancel",
            ),
            Some(Popup::Inspect(t)) => make_box(
                Some(place_middle(area, take_most(area.width, 60), take_most(area.height, 20))),
                " Inspect Volume ",
                self.theme.accent,
                t.as_str(),
            ),
            None => None,
        }
    }

    /// The search line, while something is searched for.
    pub fn draw_search(&self, area: Rect) -> (r: Option<PopupBox>)
        ensures
            box_view(r) == self@.search_box(area),
    {
        if !self.searching {
            return None;
        }
        let w: u16 = lesser(40, area.width);
        let place = Rect {
            x: area.x.saturating_add(area.width.saturating_sub(w) / 2),
            y: area.y.saturating_add(2),
            width: w,
            height: 3,
        };
        make_box(
            Some(place),
            " Search ",
            self.theme.accent,
            text::cat(self.query.as_str(), "_").as_str(),
        )
    }

    /// What the tab looks like.
    pub fn draw(&self, area: Rect, now: u64) -> (r: Page)
        ensures
            is_page(area, r.head, r.body),
            r.bar.deep_view() == self@.bar(now),
            r.rows.deep_view() == self@.table(),
            box_view(r.popup) == self@.popup_box(area),
    {
        let (head, body) = two_rows(area, Slot::Length(3), Slot::Min(1));
        Page {
            head,
            body,
            bar: self.make_bar(now),
            rows: self.make_table(),
            popup: self.make_popup(area),
        }
    }
}

} // verus!
