//! What the pages of the tabs have in common: a bar, a table, and a box over them.

use crate::containers::util::alt_row_style;
use crate::geometry::{center, centered, has_room, may_split_into, Direction, Rect, Slot};
use crate::pull::{spinner, spinner_frame};
use crate::text;
use crate::theme::{colored, plain_style, span, Color, Span, SpanView, Style, Theme};
use vstd::prelude::*;

verus! {

/* ---------------- spans ---------------- */

pub fn push_span(l: &mut Vec<Span>, t: &str, style: Style)
    ensures
        final(l).deep_view() == old(l).deep_view().push(span(t@, style)),
{
    let ghost before = l.deep_view();
    let s = Span::new(t, style);
    l.push(s);
    assert(l.deep_view() == before.push(s@));
}

/// A list with one more item where that is wanted.
pub open spec fn with_if(l: Seq<SpanView>, wanted: bool, s: SpanView) -> Seq<SpanView> {
    if wanted {
        l.push(s)
    } else {
        l
    }
}

/// What is searched for, where something is.
pub open spec fn with_filter(l: Seq<SpanView>, query: Seq<char>, theme: Theme) -> Seq<SpanView> {
    with_if(
        l,
        query.len() > 0,
        span(" | filter: '"@ + query + "'"@, colored(theme.accent)),
    )
}

pub fn push_filter(l: &mut Vec<Span>, query: &str, theme: Theme)
    ensures
        final(l).deep_view() == with_filter(old(l).deep_view(), query@, theme),
{
    if !query.is_empty() {
        push_span(l, text::cat3(" | filter: '", query, "'").as_str(), Style::fg(theme.accent));
    }
}

/// What the list is sorted by, and which way.
pub open spec fn sort_span(name: Seq<char>, asc: bool, theme: Theme) -> SpanView {
    span(
        " | sort: "@ + name + (if asc {
            "↑"@
        } else {
            "↓"@
        }),
        colored(theme.muted),
    )
}

pub fn push_sort(l: &mut Vec<Span>, name: &str, asc: bool, theme: Theme)
    ensures
        final(l).deep_view() == old(l).deep_view().push(sort_span(name@, asc, theme)),
{
    let arrow = if asc {
        "↑"
    } else {
        "↓"
    };
    push_span(l, text::cat3(" | sort: ", name, arrow).as_str(), Style::fg(theme.muted));
}

/// How many rows are marked, where some are.
pub open spec fn with_marked(l: Seq<SpanView>, n: nat, theme: Theme) -> Seq<SpanView> {
    with_if(
        l,
        n > 0,
        span(" | selected: "@ + text::decimal(n), colored(theme.accent)),
    )
}

pub fn push_marked(l: &mut Vec<Span>, n: usize, theme: Theme)
    ensures
        final(l).deep_view() == with_marked(old(l).deep_view(), n as nat, theme),
{
    if n > 0 {
        let t = text::cat(" | selected: ", text::number(n as u64).as_str());
        push_span(l, t.as_str(), Style::fg(theme.accent));
    }
}

/// A list that was read less than 800 milliseconds ago.
pub open spec fn just_read(now: u64, last: u64) -> bool {
    now - last < 800
}

/// A spinner, just after the list was read.
pub open spec fn with_spinner(
    l: Seq<SpanView>,
    now: u64,
    last: u64,
    tick: u64,
    style: Style,
) -> Seq<SpanView> {
    with_if(l, just_read(now, last), span(" "@ + spinner_frame(tick), style))
}

pub fn push_spinner(l: &mut Vec<Span>, now: u64, last: u64, tick: u64, style: Style)
    ensures
        final(l).deep_view() == with_spinner(old(l).deep_view(), now, last, tick, style),
{
    if now.saturating_sub(last) < 800 {
        push_span(l, text::cat(" ", spinner(tick).as_str()).as_str(), style);
    }
}

/* ---------------- rows ---------------- */

#[derive(Clone, Copy, Debug, PartialEq, Eq, Structural)]
pub enum RowLook {
    Selected,
    Alternate,
    Plain,
}

/// A row of the table.
pub struct Row {
    pub cells: Vec<Span>,
    pub look: RowLook,
}

#[verifier::ext_equal]
pub struct RowView {
    pub cells: Seq<SpanView>,
    pub look: RowLook,
}

impl View for Row {
    type V = RowView;

    open spec fn view(&self) -> RowView {
        RowView { cells: self.cells.deep_view(), look: self.look }
    }
}

impl DeepView for Row {
    type V = RowView;

    open spec fn deep_view(&self) -> RowView {
        self@
    }
}

/// Without a cursor the first row counts as selected; every other row of the rest stands out.
pub open spec fn look_of(i: int, selected: Option<usize>) -> RowLook {
    let at = match selected {
        Some(s) => s as int,
        None => 0,
    };
    if i == at {
        RowLook::Selected
    } else if i % 2 == 1 {
        RowLook::Alternate
    } else {
        RowLook::Plain
    }
}

pub fn row_look(i: usize, selected: Option<usize>) -> (r: RowLook)
    ensures
        r == look_of(i as int, selected),
{
    let at: usize = match selected {
        Some(s) => s,
        None => 0,
    };
    if i == at {
        RowLook::Selected
    } else if i % 2 == 1 {
        RowLook::Alternate
    } else {
        RowLook::Plain
    }
}

pub open spec fn look_style(look: RowLook, theme: Theme) -> Style {
    match look {
        RowLook::Selected => Style {
            fg: Some(theme.accent),
            bg: Some(Color::Rgb(24, 26, 30)),
            bold: true,
            dim: false,
        },
        RowLook::Alternate => Style { bg: Some(Color::Rgb(16, 18, 20)), ..plain_style() },
        RowLook::Plain => plain_style(),
    }
}

/// The style of a row of the lists whose cursor does not glow.
pub fn row_style(look: RowLook, theme: Theme) -> (r: Style)
    ensures
        r == look_style(look, theme),
{
    match look {
        RowLook::Selected => Style {
            fg: Some(theme.accent),
            bg: Some(Color::Rgb(24, 26, 30)),
            bold: true,
            dim: false,
        },
        RowLook::Alternate => alt_row_style(),
        RowLook::Plain => Style::plain(),
    }
}

/// A piece of text without a style of its own.
pub fn push_plain(l: &mut Vec<Span>, t: &str)
    ensures
        final(l).deep_view() == old(l).deep_view().push(span(t@, plain_style())),
{
    push_span(l, t, Style::plain());
}

/* ---------------- the box ---------------- */

/// A box over the page.
pub struct PopupBox {
    pub area: Rect,
    pub title: String,
    pub border: Color,
    pub text: String,
}

#[verifier::ext_equal]
pub struct BoxView {
    pub area: Rect,
    pub title: Seq<char>,
    pub border: Color,
    pub text: Seq<char>,
}

impl View for PopupBox {
    type V = BoxView;

    open spec fn view(&self) -> BoxView {
        BoxView { area: self.area, title: self.title@, border: self.border, text: self.text@ }
    }
}

pub open spec fn box_view(b: Option<PopupBox>) -> Option<BoxView> {
    match b {
        Some(b) => Some(b@),
        None => None,
    }
}

/// A box of that content, where there is an area for it.
pub open spec fn box_in(
    area: Option<Rect>,
    title: Seq<char>,
    border: Color,
    t: Seq<char>,
) -> Option<BoxView> {
    match area {
        Some(area) => Some(BoxView { area, title, border, text: t }),
        None => None,
    }
}

pub fn make_box(area: Option<Rect>, title: &str, border: Color, t: &str) -> (r: Option<PopupBox>)
    ensures
        box_view(r) == box_in(area, title@, border, t@),
{
    match area {
        Some(area) => Some(
            PopupBox { area, title: title.to_owned(), border, text: t.to_owned() },
        ),
        None => None,
    }
}

/// The area of a question: half as wide as the page, and at least 48 cells.
pub open spec fn question_area(area: Rect, height: int) -> Option<Rect> {
    let w = if area.width / 2 < 48 {
        48
    } else {
        area.width as int / 2
    };
    if has_room(area, w, height) {
        Some(centered(area, w, height))
    } else {
        None
    }
}

pub fn place_question(area: Rect, height: u16) -> (r: Option<Rect>)
    ensures
        r == question_area(area, height as int),
{
    let w: u16 = if area.width / 2 < 48 {
        48
    } else {
        area.width / 2
    };
    center(area, w, height)
}

/* ---------------- the page ---------------- */

/// A page: the areas of its bar and of its table, what the bar says behind the title, the
/// rows of the table, and the box over it.
pub struct Page {
    pub head: Rect,
    pub body: Rect,
    pub bar: Vec<Span>,
    pub rows: Vec<Row>,
    pub popup: Option<PopupBox>,
}

/// A bar of three rows above a table.
pub open spec fn is_page(area: Rect, head: Rect, body: Rect) -> bool {
    may_split_into(
        area,
        Direction::Rows,
        seq![Slot::Length(3), Slot::Min(1)],
        seq![head, body],
    )
}

} // verus!
