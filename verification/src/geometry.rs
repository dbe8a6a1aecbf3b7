//! Where things are drawn.

use ratatui::layout::{Constraint, Layout};
use vstd::prelude::*;

verus! {

#[derive(Clone, Copy, Debug, PartialEq, Eq, Structural)]
pub struct Rect {
    pub x: u16,
    pub y: u16,
    pub width: u16,
    pub height: u16,
}

/// How an area is divided.
#[derive(Clone, Copy, Debug, PartialEq, Eq, Structural)]
pub enum Direction {
    Rows,
    Columns,
}

/// What a part of an area asks for.
#[derive(Clone, Copy, Debug, PartialEq, Eq, Structural)]
pub enum Slot {
    Length(u16),
    Min(u16),
    Percentage(u16),
}

/// A part of an area that runs across it: rows are as wide as the area, columns as high.
pub open spec fn runs_across(part: Rect, area: Rect, direction: Direction) -> bool {
    match direction {
        Direction::Rows => part.x == area.x && part.width == area.width,
        Direction::Columns => part.y == area.y && part.height == area.height,
    }
}

/// `parts` is a division of `area` that `ratatui::layout::Layout::split` may come to.
pub uninterp spec fn may_split_into(
    area: Rect,
    direction: Direction,
    slots: Seq<Slot>,
    parts: Seq<Rect>,
) -> bool;

/// `ratatui::layout::Layout::split`, without a margin: one part for each slot, and each runs
/// across the area. How much room a part gets is for the layout's solver to say. Where the slots
/// leave it a choice it may choose differently from run to run, so its division is named as one
/// of those it may come to.
#[verifier::external_body]
pub(crate) fn split(area: Rect, direction: Direction, slots: &Vec<Slot>) -> (r: Vec<Rect>)
    ensures
        r@.len() == slots@.len(),
        may_split_into(area, direction, slots@, r@),
        forall|i: int| 0 <= i < r@.len() ==> runs_across(#[trigger] r@[i], area, direction),
{
    let dir = match direction {
        Direction::Rows => ratatui::layout::Direction::Vertical,
        Direction::Columns => ratatui::layout::Direction::Horizontal,
    };
    let asked = slots.iter().map(|s| match s {
        Slot::Length(n) => Constraint::Length(*n),
        Slot::Min(n) => Constraint::Min(*n),
        Slot::Percentage(n) => Constraint::Percentage(*n),
    });
    let whole = ratatui::layout::Rect { x: area.x, y: area.y, width: area.width, height: area.height };
    let parts = Layout::default().direction(dir).constraints(asked).split(whole);
    parts.iter().map(|p| Rect { x: p.x, y: p.y, width: p.width, height: p.height }).collect()
}

/// Three parts of an area, one below the other.
pub fn three_rows(area: Rect, a: Slot, b: Slot, c: Slot) -> (r: (Rect, Rect, Rect))
    ensures
        may_split_into(area, Direction::Rows, seq![a, b, c], seq![r.0, r.1, r.2]),
        runs_across(r.0, area, Direction::Rows),
        runs_across(r.1, area, Direction::Rows),
        runs_across(r.2, area, Direction::Rows),
{
    let mut slots: Vec<Slot> = Vec::new();
    slots.push(a);
    slots.push(b);
    slots.push(c);
    let parts = split(area, Direction::Rows, &slots);
    assert(slots@ == seq![a, b, c]);
    assert(parts@ == seq![parts@[0], parts@[1], parts@[2]]);
    (parts[0], parts[1], parts[2])
}

/// Two parts of an area, one below the other.
pub fn two_rows(area: Rect, a: Slot, b: Slot) -> (r: (Rect, Rect))
    ensures
        may_split_into(area, Direction::Rows, seq![a, b], seq![r.0, r.1]),
        runs_across(r.0, area, Direction::Rows),
        runs_across(r.1, area, Direction::Rows),
{
    let mut slots: Vec<Slot> = Vec::new();
    slots.push(a);
    slots.push(b);
    let parts = split(area, Direction::Rows, &slots);
    assert(slots@ == seq![a, b]);
    assert(parts@ == seq![parts@[0], parts@[1]]);
    (parts[0], parts[1])
}

/// An area in the middle of another.
pub open spec fn centered(area: Rect, width: int, height: int) -> Rect {
    Rect {
        x: (area.x + (area.width - width) / 2) as u16,
        y: (area.y + (area.height - height) / 2) as u16,
        width: width as u16,
        height: height as u16,
    }
}

/// An area of this size has room in another, whose edges are within bounds.
pub open spec fn has_room(area: Rect, width: int, height: int) -> bool {
    &&& 0 <= width <= area.width
    &&& 0 <= height <= area.height
    &&& area.x + area.width <= u16::MAX
    &&& area.y + area.height <= u16::MAX
}

/// An area in the middle of another lies within it.
pub proof fn centered_lies_within(area: Rect, width: int, height: int)
    requires
        has_room(area, width, height),
    ensures
        ({
            let r = centered(area, width, height);
            &&& area.x <= r.x && r.x + r.width <= area.x + area.width
            &&& area.y <= r.y && r.y + r.height <= area.y + area.height
        }),
{
}

/// Puts an area in the middle of another, if there is room for it.
pub fn center(area: Rect, width: u16, height: u16) -> (r: Option<Rect>)
    ensures
        r == (if has_room(area, width as int, height as int) {
            Some(centered(area, width as int, height as int))
        } else {
            None
        }),
{
    if width <= area.width && height <= area.height && area.width <= u16::MAX - area.x
        && area.height <= u16::MAX - area.y {
        Some(
            Rect {
                x: area.x + (area.width - width) / 2,
                y: area.y + (area.height - height) / 2,
                width,
                height,
            },
        )
    } else {
        None
    }
}

/// A fraction of a length, but not less than `least`.
pub open spec fn fraction(n: int, num: int, den: int, least: int) -> int {
    if n * num / den < least {
        least
    } else {
        n * num / den
    }
}

/// An overlay in the middle of an area that takes `num / den` of it, and at least the given
/// size. `None` where there is no room for it, or the area is too large to be divided.
pub open spec fn overlay_of(area: Rect, num: int, den: int, min_w: int, min_h: int) -> Option<Rect> {
    let w = fraction(area.width as int, num, den, min_w);
    let h = fraction(area.height as int, num, den, min_h);
    if area.width * num <= u16::MAX && area.height * num <= u16::MAX && has_room(area, w, h) {
        Some(centered(area, w, h))
    } else {
        None
    }
}

pub fn overlay(area: Rect, num: u16, den: u16, min_w: u16, min_h: u16) -> (r: Option<Rect>)
    requires
        0 < num <= den,
    ensures
        r == overlay_of(area, num as int, den as int, min_w as int, min_h as int),
{
    proof {
        assert(area.width * num == area.width as int * num as int);
        assert(0 <= area.width * num <= 65535 * 65535) by (nonlinear_arith)
            requires
                0 <= area.width <= 65535,
                0 <= num <= 65535,
        ;
        assert(0 <= area.height * num <= 65535 * 65535) by (nonlinear_arith)
            requires
                0 <= area.height <= 65535,
                0 <= num <= 65535,
        ;
    }
    let wide: u32 = area.width as u32 * num as u32;
    let high: u32 = area.height as u32 * num as u32;
    if wide > 65535 || high > 65535 {
        return None;
    }
    let w: u16 = (wide as u16) / den;
    let h: u16 = (high as u16) / den;
    center(
        area,
        if w < min_w {
            min_w
        } else {
            w
        },
        if h < min_h {
            min_h
        } else {
            h
        },
    )
}

/// What a frame of one cell leaves of an area.
pub open spec fn framed(area: Rect) -> Rect {
    Rect {
        x: (if area.x == u16::MAX {
            area.x as int
        } else {
            area.x + 1
        }) as u16,
        y: (if area.y == u16::MAX {
            area.y as int
        } else {
            area.y + 1
        }) as u16,
        width: (if area.width < 2 {
            0
        } else {
            area.width - 2
        }) as u16,
        height: (if area.height < 2 {
            0
        } else {
            area.height - 2
        }) as u16,
    }
}

pub fn inside_frame(area: Rect) -> (r: Rect)
    ensures
        r == framed(area),
{
    Rect {
        x: area.x.saturating_add(1),
        y: area.y.saturating_add(1),
        width: area.width.saturating_sub(2),
        height: area.height.saturating_sub(2),
    }
}

/// Two parts of an area, side by side.
pub fn two_columns(area: Rect, a: Slot, b: Slot) -> (r: (Rect, Rect))
    ensures
        may_split_into(area, Direction::Columns, seq![a, b], seq![r.0, r.1]),
        runs_across(r.0, area, Direction::Columns),
        runs_across(r.1, area, Direction::Columns),
{
    let mut slots: Vec<Slot> = Vec::new();
    slots.push(a);
    slots.push(b);
    let parts = split(area, Direction::Columns, &slots);
    assert(slots@ == seq![a, b]);
    assert(parts@ == seq![parts@[0], parts@[1]]);
    (parts[0], parts[1])
}

/// The slots that leave `percent` of a length in the middle.
pub open spec fn middle_slots(percent: int) -> Seq<Slot> {
    seq![
        Slot::Percentage(((100 - percent) / 2) as u16),
        Slot::Percentage(percent as u16),
        Slot::Percentage(((100 - percent) / 2) as u16),
    ]
}

fn middle_part(area: Rect, direction: Direction, percent: u16) -> (r: Rect)
    requires
        percent <= 100,
    ensures
        exists|parts: Seq<Rect>|
            parts.len() == 3 && parts[1] == r && #[trigger] may_split_into(
                area,
                direction,
                middle_slots(percent as int),
                parts,
            ),
        runs_across(r, area, direction),
{
    let mut slots: Vec<Slot> = Vec::new();
    slots.push(Slot::Percentage((100 - percent) / 2));
    slots.push(Slot::Percentage(percent));
    slots.push(Slot::Percentage((100 - percent) / 2));
    assert(slots@ == middle_slots(percent as int));
    let parts = split(area, direction, &slots);
    parts[1]
}

/// `r` is the middle of `area` in one direction.
pub open spec fn is_middle(r: Rect, area: Rect, direction: Direction, percent: int) -> bool {
    exists|parts: Seq<Rect>|
        parts.len() == 3 && parts[1] == r && #[trigger] may_split_into(
            area,
            direction,
            middle_slots(percent),
            parts,
        )
}

/// An area in the middle of another, of so many percent of its width and height.
pub fn centered_rect(percent_x: u16, percent_y: u16, area: Rect) -> (r: Rect)
    requires
        percent_x <= 100,
        percent_y <= 100,
    ensures
        exists|rows: Rect| #[trigger]
            is_middle(rows, area, Direction::Rows, percent_y as int) && is_middle(
                r,
                rows,
                Direction::Columns,
                percent_x as int,
            ) && r.y == rows.y && r.height == rows.height && rows.x == area.x && rows.width
                == area.width,
{
    let rows = middle_part(area, Direction::Rows, percent_y);
    assert(is_middle(rows, area, Direction::Rows, percent_y as int));
    middle_part(rows, Direction::Columns, percent_x)
}

} // verus!
