//! What the networks tab looks like.

use crate::containers::util::middle_cut;
use crate::draw::page::{
    box_in, box_view, is_page, look_of, make_box, place_question, push_filter, push_plain, push_sort,
    push_span, push_spinner, question_area, row_look, sort_span, with_filter, with_spinner, BoxView,
    Page, PopupBox, Row, RowView,
};
use crate::geometry::{overlay, overlay_of, two_rows, Rect, Slot};
use crate::networks::{
    short_id, NetworkModel, NetworkRow, NetworksModel, NetworksView, Popup, PopupView, SortKey,
};
use crate::order::positions;
use crate::text;
use crate::theme::{bold, colored, plain_style, span, Span, SpanView, Style};
use vstd::prelude::*;

verus! {

pub open spec fn sort_name(k: SortKey) -> Seq<char> {
    match k {
        SortKey::Name => "name"@,
        SortKey::Driver => "driver"@,
        SortKey::Scope => "scope"@,
    }
}

pub open spec fn network_cells(n: NetworkModel) -> Seq<SpanView> {
    seq![
        span(n.name, plain_style()),
        span(n.driver, plain_style()),
        span(n.scope, plain_style()),
        span("-"@, plain_style()),
        span(middle_cut(n.id, 18), plain_style()),
    ]
}

impl NetworksModel {
    pub open spec fn bar(self, now: u64) -> Seq<SpanView> {
        let keys = seq![
            span(
                "  j/k ↑/↓ • /: search • a: all/user • o/O: sort • r/F5: refresh • i: inspect • d: delete"@,
                plain_style(),
            ),
        ];
        let sorted = with_filter(keys, self.query, self.theme).push(
            sort_span(sort_name(self.sort_key), self.sort_asc, self.theme),
        );
        let mode = span(
            " | mode: "@ + (if self.show_builtin {
                "all"@
            } else {
                "user-defined"@
            }),
            colored(self.theme.muted),
        );
        with_spinner(
            sorted.push(mode),
            now,
            self.last_refresh,
            self.tick,
            bold(self.theme.accent),
        )
    }

    pub open spec fn table(self) -> Seq<RowView> {
        let v = self.visible();
        Seq::new(
            v.len(),
            |i: int|
                RowView {
                    cells: network_cells(self.rows[v[i]]),
                    look: look_of(i, self.selected),
                },
        )
    }

    pub open spec fn popup_box(self, area: Rect) -> Option<BoxView> {
        match self.popup {
            Some(PopupView::Inspect(t)) => box_in(
                overlay_of(area, 3, 4, 40, 10),
                "Inspect network (esc to close)"@,
                self.theme.accent,
                t,
            ),
            Some(PopupView::ConfirmDelete { id, name }) => box_in(
                question_area(area, 7),
                "Delete network? (y/n/esc)"@,
                self.theme.err,
                "Confirm deletion of network `"@ + name + "`?"@,
            ),
            None => None,
        }
    }
}

fn make_cells(n: &NetworkRow) -> (r: Vec<Span>)
    ensures
        r.deep_view() == network_cells(n@),
{
    let mut r: Vec<Span> = Vec::new();
    push_plain(&mut r, n.name.as_str());
    push_plain(&mut r, n.driver.as_str());
    push_plain(&mut r, n.scope.as_str());
    push_plain(&mut r, "-");
    push_plain(&mut r, short_id(n).as_str());
    assert(r.deep_view() == network_cells(n@));
    r
}

impl NetworksView {
    fn make_bar(&self, now: u64) -> (r: Vec<Span>)
        ensures
            r.deep_view() == self@.bar(now),
    {
        let theme = self.theme;
        let mut r: Vec<Span> = Vec::new();
        assert(r.deep_view() == Seq::<SpanView>::empty());
        push_plain(
            &mut r,
            "  j/k ↑/↓ • /: search • a: all/user • o/O: sort • r/F5: refresh • i: inspect • d: delete",
        );
        assert(r.deep_view() == seq![r.deep_view()[0]]);
        push_filter(&mut r, self.query.as_str(), theme);
        let name = match self.sort_key {
            SortKey::Name => "name",
            SortKey::Driver => "driver",
            SortKey::Scope => "scope",
        };
        push_sort(&mut r, name, self.sort_asc, theme);
        let mode = if self.show_builtin {
            "all"
        } else {
            "user-defined"
        };
        push_span(&mut r, text::cat(" | mode: ", mode).as_str(), Style::fg(theme.muted));
        push_spinner(&mut r, now, self.last_refresh, self.tick, Style::bold(theme.accent));
        r
    }

    fn make_table(&self) -> (r: Vec<Row>)
        ensures
            r.deep_view() == self@.table(),
    {
        let vis = self.visible_indices();
        let ghost m = self@;
        let ghost v = m.visible();
        let ghost all = m.table();
        let mut out: Vec<Row> = Vec::new();
        let mut i: usize = 0;
        assert(positions(vis@).len() == vis@.len());
        assert(out.deep_view() == all.take(0));
        while i < vis.len()
            invariant
                i <= vis@.len(),
                m == self@,
                v == m.visible(),
                positions(vis@) == v,
                v.len() == vis@.len(),
                forall|k: int| 0 <= k < vis@.len() ==> #[trigger] vis@[k] < self.rows@.len(),
                all == m.table(),
                out.deep_view() == all.take(i as int),
            decreases vis@.len() - i,
        {
            let at: usize = vis[i];
            assert(v[i as int] == at);
            assert(m.rows[at as int] == self.rows@[at as int]@);
            let ghost before = out.deep_view();
            let row = Row { cells: make_cells(&self.rows[at]), look: row_look(i, self.selected) };
            out.push(row);
            assert(out.deep_view() == before.push(row@));
            assert(all.take(i + 1) == all.take(i as int).push(all[i as int]));
            i += 1;
        }
        assert(all.take(vis@.len() as int) == all);
        out
    }

    fn make_popup(&self, area: Rect) -> (r: Option<PopupBox>)
        ensures
            box_view(r) == self@.popup_box(area),
    {
        match &self.popup {
            Some(Popup::Inspect(t)) => make_box(
                overlay(area, 3, 4, 40, 10),
                "Inspect network (esc to close)",
                self.theme.accent,
                t.as_str(),
            ),
            Some(Popup::ConfirmDelete { id, name }) => make_box(
                place_question(area, 7),
                "Delete network? (y/n/esc)",
                self.theme.err,
                text::cat3("Confirm deletion of network `", name.as_str(), "`?").as_str(),
            ),
            None => None,
        }
    }

    /// What the tab looks like.
    pub fn draw(&self, area: Rect, now: u64) -> (r: Page)
        ensures
            is_page(area, r.head, r.body),
            r.bar.deep_view() == self@.bar(now),
            r.rows.deep_view() == self@.table(),
            box_view(r.popup) == self@.popup_box(area),
    {
        let (head, body) = two_rows(area, Slot::Length(3), Slot::Min(1));
        Page {
            head,
            body,
            bar: self.make_bar(now),
            rows: self.make_table(),
            popup: self.make_popup(area),
        }
    }
}

} // verus!
