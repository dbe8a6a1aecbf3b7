//! What the compose tab looks like.

use crate::compose::{project_cells, ComposeModel, ComposeProject, ComposeView, ProjectModel};
use crate::containers::util::middle_cut;
use crate::draw::page::{
    box_in, box_view, is_page, look_of, make_box, push_filter, push_plain, push_spinner, row_look,
    with_filter, with_spinner, BoxView, Page, PopupBox, Row, RowView,
};
use crate::geometry::{overlay, overlay_of, two_rows, Rect, Slot};
use crate::order::positions;
use crate::theme::{bold, plain_style, span, Span, SpanView, Style};
use vstd::prelude::*;

verus! {

pub open spec fn cells(p: ProjectModel) -> Seq<SpanView> {
    seq![
        span(p.name, plain_style()),
        span(p.status_text(), plain_style()),
        span(p.file_name, plain_style()),
        span(middle_cut(p.path, 60), plain_style()),
    ]
}

impl ComposeModel {
    pub open spec fn bar(self, now: u64) -> Seq<SpanView> {
        let keys = seq![
            span(
                "  j/k ↑/↓ • /: search • r/F5: rescan • u: up -d • d: down • s: ps • l: logs • e: edit"@,
                plain_style(),
            ),
        ];
        with_spinner(
            with_filter(keys, self.query, self.theme),
            now,
            self.last_scan,
            self.tick,
            bold(self.theme.accent),
        )
    }

    pub open spec fn table(self) -> Seq<RowView> {
        let v = self.visible();
        Seq::new(
            v.len(),
            |i: int|
                RowView { cells: cells(self.rows[v[i]]), look: look_of(i, self.selected) },
        )
    }

    pub open spec fn popup_box(self, area: Rect) -> Option<BoxView> {
        match self.popup {
            Some(p) => box_in(
                overlay_of(area, 4, 5, 60, 12),
                p.title,
                self.theme.accent,
                p.content,
            ),
            None => None,
        }
    }
}

fn make_cells(p: &ComposeProject) -> (r: Vec<Span>)
    ensures
        r.deep_view() == cells(p@),
{
    let (name, status, file, path) = project_cells(p);
    let mut r: Vec<Span> = Vec::new();
    push_plain(&mut r, name.as_str());
    push_plain(&mut r, status.as_str());
    push_plain(&mut r, file.as_str());
    push_plain(&mut r, path.as_str());
    assert(r.deep_view() == cells(p@));
    r
}

impl ComposeView {
    fn make_bar(&self, now: u64) -> (r: Vec<Span>)
        ensures
            r.deep_view() == self@.bar(now),
    {
        let mut r: Vec<Span> = Vec::new();
        assert(r.deep_view() == Seq::<SpanView>::empty());
        push_plain(
            &mut r,
            "  j/k ↑/↓ • /: search • r/F5: rescan • u: up -d • d: down • s: ps • l: logs • e: edit",
        );
        assert(r.deep_view() == seq![r.deep_view()[0]]);
        push_filter(&mut r, self.query.as_str(), self.theme);
        push_spinner(&mut r, now, self.last_scan, self.tick, Style::bold(self.theme.accent));
        r
    }

    fn make_table(&self) -> (r: Vec<Row>)
        ensures
            r.deep_view() == self@.table(),
    {
        let vis = self.visible_indices();
        let ghost m = self@;
        let ghost v = m.visible();
        let ghost all = m.table();
        let mut out: Vec<Row> = Vec::new();
        let mut i: usize = 0;
        assert(positions(vis@).len() == vis@.len());
        assert(out.deep_view() == all.take(0));
        while i < vis.len()
            invariant
                i <= vis@.len(),
                m == self@,
                v == m.visible(),
                positions(vis@) == v,
                v.len() == vis@.len(),
                forall|k: int| 0 <= k < vis@.len() ==> #[trigger] vis@[k] < self.rows@.len(),
                all == m.table(),
                out.deep_view() == all.take(i as int),
            decreases vis@.len() - i,
        {
            let at: usize = vis[i];
            assert(v[i as int] == at);
            assert(m.rows[at as int] == self.rows@[at as int]@);
            let ghost before = out.deep_view();
            let row = Row { cells: make_cells(&self.rows[at]), look: row_look(i, self.selected) };
            out.push(row);
            assert(out.deep_view() == before.push(row@));
            assert(all.take(i + 1) == all.take(i as int).push(all[i as int]));
            i += 1;
        }
        assert(all.take(vis@.len() as int) == all);
        out
    }

    fn make_popup(&self, area: Rect) -> (r: Option<PopupBox>)
        ensures
            box_view(r) == self@.popup_box(area),
    {
        match &self.popup {
            Some(p) => make_box(
                overlay(area, 4, 5, 60, 12),
                p.title.as_str(),
                self.theme.accent,
                p.content.as_str(),
            ),
            None => None,
        }
    }

    /// What the tab looks like.
    pub fn draw(&self, area: Rect, now: u64) -> (r: Page)
        ensures
            is_page(area, r.head, r.body),
            r.bar.deep_view() == self@.bar(now),
            r.rows.deep_view() == self@.table(),
            box_view(r.popup) == self@.popup_box(area),
    {
        let (head, body) = two_rows(area, Slot::Length(3), Slot::Min(1));
        Page {
            head,
            body,
            bar: self.make_bar(now),
            rows: self.make_table(),
            popup: self.make_popup(area),
        }
    }
}

} // verus!
