//! What the images tab looks like.

use crate::containers::util::middle_cut;
use crate::draw::page::{
    box_in, box_view, is_page, look_of, make_box, place_question, push_filter, push_marked, push_plain,
    push_sort, push_span, push_spinner, question_area, row_look, sort_span, with_filter, with_marked,
    with_spinner, BoxView, Page, PopupBox, Row, RowView,
};
use crate::geometry::{overlay, overlay_of, two_rows, Rect, Slot};
use crate::images::{
    image_cells, ImageModel, ImageSummary, ImagesModel, ImagesView, Popup, PopupView, SortKey,
};
use crate::order::positions;
use crate::text;
use crate::theme::{bold, colored, plain_style, span, Span, SpanView, Style};
use crate::units;
use vstd::prelude::*;

verus! {

pub open spec fn sort_name(k: SortKey) -> Seq<char> {
    match k {
        SortKey::Repo => "repo"@,
        SortKey::Size => "size"@,
        SortKey::Created => "created"@,
    }
}

/// The cells of an image; the clock is in seconds.
pub open spec fn cells(img: ImageModel, marked: bool, clock: u64) -> Seq<SpanView> {
    seq![
        span(
            (if marked {
                "▣ "@
            } else {
                "▢ "@
            }) + img.name(),
            plain_style(),
        ),
        span(units::size_text(img.size), plain_style()),
        span(units::created_text(img.created, clock), plain_style()),
        span(middle_cut(img.id, 20), plain_style()),
    ]
}

impl ImagesModel {
    pub open spec fn bar(self, now: u64) -> Seq<SpanView> {
        let keys = seq![
            span(
                "  j/k ↑/↓ • /: search • a: all/dangling • o/O: sort • r/F5: refresh • i: inspect • d: delete • x: select • p: pull • S: save"@,
                plain_style(),
            ),
        ];
        let marked = with_marked(keys, self.selected_ids.len(), self.theme);
        let sorted = with_filter(marked, self.query, self.theme).push(
            sort_span(sort_name(self.sort_key), self.sort_asc, self.theme),
        );
        let mode = span(
            " | mode: "@ + (if self.dangling_only {
                "dangling"@
            } else {
                "all"@
            }),
            colored(self.theme.muted),
        );
        with_spinner(
            sorted.push(mode),
            now,
            self.last_refresh,
            self.tick,
            bold(self.theme.accent),
        )
    }

    pub open spec fn table(self, clock: u64) -> Seq<RowView> {
        let v = self.visible();
        Seq::new(
            v.len(),
            |i: int|
                RowView {
                    cells: cells(
                        self.rows[v[i]],
                        self.selected_ids.contains(self.rows[v[i]].id),
                        clock,
                    ),
                    look: look_of(i, self.selected),
                },
        )
    }

    pub open spec fn popup_box(self, area: Rect) -> Option<BoxView> {
        match self.popup {
            Some(PopupView::Inspect(t)) => box_in(
                overlay_of(area, 3, 4, 40, 10),
                "Inspect image (esc to close)"@,
                self.theme.accent,
                t,
            ),
            Some(PopupView::ConfirmDelete { id, name }) => box_in(
                question_area(area, 7),
                "Delete image? (y/n/esc)"@,
                self.theme.err,
                "Confirm deletion of image `"@ + name + "` ?"@,
            ),
            None => None,
        }
    }
}

fn make_cells(img: &ImageSummary, marked: bool, clock: u64) -> (r: Vec<Span>)
    ensures
        r.deep_view() == cells(img@, marked, clock),
{
    let (name, size, created, id) = image_cells(img, clock);
    let checkbox = if marked {
        "▣ "
    } else {
        "▢ "
    };
    let mut r: Vec<Span> = Vec::new();
    push_plain(&mut r, text::cat(checkbox, name.as_str()).as_str());
    push_plain(&mut r, size.as_str());
    push_plain(&mut r, created.as_str());
    push_plain(&mut r, id.as_str());
    assert(r.deep_view() == cells(img@, marked, clock));
    r
}

impl ImagesView {
    fn make_bar(&self, now: u64) -> (r: Vec<Span>)
        ensures
            r.deep_view() == self@.bar(now),
    {
        let theme = self.theme;
        let mut r: Vec<Span> = Vec::new();
        assert(r.deep_view() == Seq::<SpanView>::empty());
        push_plain(
            &mut r,
            "  j/k ↑/↓ • /: search • a: all/dangling • o/O: sort • r/F5: refresh • i: inspect • d: delete • x: select • p: pull • S: save",
        );
        assert(r.deep_view() == seq![r.deep_view()[0]]);
        push_marked(&mut r, self.selected_ids.len(), theme);
        push_filter(&mut r, self.query.as_str(), theme);
        let name = match self.sort_key {
            SortKey::Repo => "repo",
            SortKey::Size => "size",
            SortKey::Created => "created",
        };
        push_sort(&mut r, name, self.sort_asc, theme);
        let mode = if self.dangling_only {
            "dangling"
        } else {
            "all"
        };
        push_span(&mut r, text::cat(" | mode: ", mode).as_str(), Style::fg(theme.muted));
        push_spinner(&mut r, now, self.last_refresh, self.tick, Style::bold(theme.accent));
        r
    }

    fn make_table(&self, clock: u64) -> (r: Vec<Row>)
        ensures
            r.deep_view() == self@.table(clock),
    {
        let vis = self.visible_indices();
        let ghost m = self@;
        let ghost v = m.visible();
        let ghost all = m.table(clock);
        let mut out: Vec<Row> = Vec::new();
        let mut i: usize = 0;
        assert(positions(vis@).len() == vis@.len());
        assert(out.deep_view() == all.take(0));
        while i < vis.len()
            invariant
                i <= vis@.len(),
                m == self@,
                v == m.visible(),
                positions(vis@) == v,
                v.len() == vis@.len(),
                forall|k: int| 0 <= k < vis@.len() ==> #[trigger] vis@[k] < self.rows@.len(),
                all == m.table(clock),
                out.deep_view() == all.take(i as int),
            decreases vis@.len() - i,
        {
            let at: usize = vis[i];
            assert(v[i as int] == at);
            assert(m.rows[at as int] == self.rows@[at as int]@);
            let ghost before = out.deep_view();
            let row = Row { cells: make_cells(
                &self.rows[at],
                self.selected_ids.contains(self.rows[at].id.as_str()),
                clock,
            ), look: row_look(i, self.selected) };
            out.push(row);
            assert(out.deep_view() == before.push(row@));
            assert(all.take(i + 1) == all.take(i as int).push(all[i as int]));
            i += 1;
        }
        assert(all.take(vis@.len() as int) == all);
        out
    }

    fn make_popup(&self, area: Rect) -> (r: Option<PopupBox>)
        ensures
            box_view(r) == self@.popup_box(area),
    {
        match &self.popup {
            Some(Popup::Inspect(t)) => make_box(
                overlay(area, 3, 4, 40, 10),
                "Inspect image (esc to close)",
                self.theme.accent,
                t.as_str(),
            ),
            Some(Popup::ConfirmDelete { id, name }) => make_box(
                place_question(area, 7),
                "Delete image? (y/n/esc)",
                self.theme.err,
                text::cat3("Confirm deletion of image `", name.as_str(), "` ?").as_str(),
            ),
            None => None,
        }
    }

    /// What the tab looks like. The clock, which ages are told by, is in seconds.
    pub fn draw(&self, area: Rect, now: u64, clock: u64) -> (r: Page)
        ensures
            is_page(area, r.head, r.body),
            r.bar.deep_view() == self@.bar(now),
            r.rows.deep_view() == self@.table(clock),
            box_view(r.popup) == self@.popup_box(area),
    {
        let (head, body) = two_rows(area, Slot::Length(3), Slot::Min(1));
        Page {
            head,
            body,
            bar: self.make_bar(now),
            rows: self.make_table(clock),
            popup: self.make_popup(area),
        }
    }
}

} // verus!
