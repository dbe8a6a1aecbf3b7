//! A progress bar that a shine runs along.

use crate::text;
use crate::theme::{bold, colored, plain_style, span, Color, Span, SpanView, Style};
use vstd::prelude::*;

verus! {

/// The cells that a bar of some width has, without its margins.
pub open spec fn room(width: int) -> int {
    if width > 2 {
        width - 2
    } else {
        0
    }
}

/// The cells that a bar of some width has, without its margins.
pub fn bar_room(width: usize) -> (r: usize)
    ensures
        r == room(width as int),
{
    width.saturating_sub(2)
}

/// Where the shine is, of `room` cells.
pub open spec fn shine_at(room: int, tick: u64) -> int {
    if room == 0 {
        0
    } else {
        (tick as int / 2) % room
    }
}

/// How strongly a cell shines, from 0 to 3: the nearer the shine, the stronger.
pub open spec fn boost(i: int, room: int, tick: u64) -> int {
    let away = if i < shine_at(room, tick) {
        shine_at(room, tick) - i
    } else {
        i - shine_at(room, tick)
    };
    if away < 3 {
        3 - away
    } else {
        0
    }
}

/// How strongly a cell shines, from 0 to 3.
pub fn shine_boost(i: usize, room: usize, tick: u64) -> (r: usize)
    ensures
        r == boost(i as int, room as int, tick),
{
    let shine: u64 = if room == 0 {
        0
    } else {
        (tick / 2) % (room as u64)
    };
    let at: u64 = i as u64;
    let away: u64 = if at < shine {
        shine - at
    } else {
        at - shine
    };
    if away < 3 {
        3 - away as usize
    } else {
        0
    }
}

/// A cell of the bar: full, in its colour, or empty.
pub open spec fn bar_cell(color: Color, full: bool) -> SpanView {
    if full {
        span("█"@, bold(color))
    } else {
        span("░"@, colored(Color::Rgb(40, 42, 46)))
    }
}

/// A bar whose first `fill` cells are full, between margins, and the percentage.
pub open spec fn bar_line(colors: Seq<Color>, fill: int, pct: int) -> Seq<SpanView> {
    seq![span(" "@, plain_style())] + Seq::new(
        colors.len(),
        |i: int| bar_cell(colors[i], i < fill),
    ) + seq![
        span(" "@, plain_style()),
        span(
            " "@ + text::signed_decimal(pct) + "% "@,
            Style { bold: true, ..plain_style() },
        ),
    ]
}

/// A bar whose first `fill` cells are full. Each cell comes with the colour that it has when
/// it is.
pub fn fancy_bar_line(colors: &Vec<Color>, fill: usize, pct: i32) -> (r: Vec<Span>)
    ensures
        r.deep_view() == bar_line(colors@, fill as int, pct as int),
{
    let ghost body = Seq::new(colors@.len(), |i: int| bar_cell(colors@[i], i < fill));
    let mut out: Vec<Span> = Vec::new();
    out.push(Span::new(" ", Style::plain()));
    let ghost margin = seq![span(" "@, plain_style())];
    let mut i: usize = 0;
    assert(out.deep_view() == margin + body.take(0));
    while i < colors.len()
        invariant
            i <= colors@.len(),
            body == Seq::new(colors@.len(), |i: int| bar_cell(colors@[i], i < fill)),
            out.deep_view() == margin + body.take(i as int),
        decreases colors@.len() - i,
    {
        let ghost before = out.deep_view();
        let s = if i < fill {
            Span::new("█", Style::bold(colors[i]))
        } else {
            Span::new("░", Style::fg(Color::Rgb(40, 42, 46)))
        };
        out.push(s);
        assert(out.deep_view() == before.push(s@));
        assert(body.take(i + 1) == body.take(i as int).push(body[i as int]));
        i += 1;
    }
    assert(body.take(body.len() as int) == body);
    let ghost before = out.deep_view();
    let label = text::cat3(" ", text::signed_number(pct as i64).as_str(), "% ");
    let gap = Span::new(" ", Style::plain());
    let tail = Span::new(label.as_str(), Style { fg: None, bg: None, bold: true, dim: false });
    out.push(gap);
    out.push(tail);
    assert(out.deep_view() == before.push(gap@).push(tail@));
    assert(out.deep_view() == bar_line(colors@, fill as int, pct as int));
    out
}

} // verus!
