//! The cards of the statistics: where they stand, their headings, and their charts.

use crate::geometry::{
    centered_rect, framed, inside_frame, is_middle, may_split_into, two_columns, two_rows, Direction, Rect,
    Slot,
};
use crate::text;
use crate::theme::{bold, colored, plain_style, span, Color, Span, SpanView, Style, Theme};
use vstd::prelude::*;

verus! {

/* ---------------- areas ---------------- */

/// Where the cards stand.
#[derive(Clone, Copy, Debug, PartialEq, Eq, Structural)]
pub struct StatsAreas {
    pub pane: Rect,
    pub cpu: Rect,
    pub mem: Rect,
    pub rx: Rect,
    pub tx: Rect,
}

/// A row of two halves.
pub open spec fn halves(row: Rect, a: Rect, b: Rect) -> bool {
    may_split_into(
        row,
        Direction::Columns,
        seq![Slot::Percentage(50), Slot::Percentage(50)],
        seq![a, b],
    )
}

/// The two rows of an area, the upper one the higher.
pub open spec fn stacked(area: Rect, top: Rect, bottom: Rect) -> bool {
    may_split_into(
        area,
        Direction::Rows,
        seq![Slot::Percentage(60), Slot::Percentage(40)],
        seq![top, bottom],
    )
}

/// The pane takes 98 of 100 parts of the width and 86 of the height; processors and memory
/// stand side by side above what came in and went out.
pub open spec fn stands_in(a: StatsAreas, area: Rect) -> bool {
    &&& exists|rows: Rect| #[trigger]
        is_middle(rows, area, Direction::Rows, 86) && is_middle(
            a.pane,
            rows,
            Direction::Columns,
            98,
        )
    &&& exists|top: Rect, bottom: Rect| #[trigger]
        stacked(framed(a.pane), top, bottom) && halves(top, a.cpu, a.mem) && halves(bottom, a.rx, a.tx)
}

/// Where the cards stand, or `None` where there is no room for them.
pub fn stats_areas(area: Rect) -> (r: Option<StatsAreas>)
    ensures
        r is None <==> area.height < 10 || area.width < 30,
        r matches Some(a) ==> stands_in(a, area),
{
    if area.height < 10 || area.width < 30 {
        return None;
    }
    let pane = centered_rect(98, 86, area);
    let inner = inside_frame(pane);
    let (top, bottom) = two_rows(inner, Slot::Percentage(60), Slot::Percentage(40));
    let (cpu, mem) = two_columns(top, Slot::Percentage(50), Slot::Percentage(50));
    let (rx, tx) = two_columns(bottom, Slot::Percentage(50), Slot::Percentage(50));
    assert(stacked(framed(pane), top, bottom));
    assert(halves(top, cpu, mem) && halves(bottom, rx, tx));
    let r = StatsAreas { pane, cpu, mem, rx, tx };
    assert(exists|rows: Rect| #[trigger]
        is_middle(rows, area, Direction::Rows, 86) && is_middle(
            r.pane,
            rows,
            Direction::Columns,
            98,
        ));
    assert(exists|top: Rect, bottom: Rect| #[trigger]
        stacked(framed(r.pane), top, bottom) && halves(top, r.cpu, r.mem) && halves(
            bottom,
            r.rx,
            r.tx,
        ));
    Some(r)
}

/// The heading and the chart within a card, or `None` where there is no room for them.
pub fn card_areas(area: Rect) -> (r: Option<(Rect, Rect)>)
    ensures
        match r {
            Some((head, graph)) => area.width >= 24 && area.height >= 4 && may_split_into(
                framed(area),
                Direction::Rows,
                seq![Slot::Length(1), Slot::Min(1)],
                seq![head, graph],
            ),
            None => area.width < 24 || area.height < 4,
        },
{
    if area.width < 24 || area.height < 4 {
        return None;
    }
    Some(two_rows(inside_frame(area), Slot::Length(1), Slot::Min(1)))
}

/* ---------------- headings ---------------- */

pub open spec fn cpu_heading(
    per_core: Seq<char>,
    total: Seq<char>,
    ncpu: u64,
    theme: Theme,
) -> Seq<SpanView> {
    let n: nat = if ncpu == 0 {
        1
    } else {
        ncpu as nat
    };
    seq![
        span(" \u{f4bc}  CPU  "@, bold(theme.accent)),
        span(per_core + " /core  "@, plain_style()),
        span("(total "@ + total + ")  "@, colored(theme.muted)),
        span("("@ + text::decimal(n) + " cores)"@, colored(theme.muted)),
    ]
}

/// The heading of the card of the processors. The shares are given as texts.
pub fn cpu_title(per_core: &str, total: &str, ncpu: u64, theme: Theme) -> (r: Vec<Span>)
    ensures
        r.deep_view() == cpu_heading(per_core@, total@, ncpu, theme),
{
    let n: u64 = if ncpu == 0 {
        1
    } else {
        ncpu
    };
    let mut r: Vec<Span> = Vec::new();
    r.push(Span::new(" \u{f4bc}  CPU  ", Style::bold(theme.accent)));
    r.push(Span::new(text::cat(per_core, " /core  ").as_str(), Style::plain()));
    r.push(Span::new(text::cat3("(total ", total, ")  ").as_str(), Style::fg(theme.muted)));
    r.push(
        Span::new(
            text::cat3("(", text::number(n).as_str(), " cores)").as_str(),
            Style::fg(theme.muted),
        ),
    );
    assert(r.deep_view() == cpu_heading(per_core@, total@, ncpu, theme));
    r
}

pub open spec fn mem_heading(
    used: Seq<char>,
    limit: Option<Seq<char>>,
    theme: Theme,
) -> Seq<SpanView> {
    seq![
        span(" \u{e266}  MEM  "@, bold(theme.ok)),
        span(
            match limit {
                Some(l) => used + " / "@ + l + " MiB"@,
                None => used + " MiB"@,
            },
            plain_style(),
        ),
    ]
}

/// The heading of the card of the memory. The amounts are given as texts.
pub fn mem_title(used: &str, limit: Option<String>, theme: Theme) -> (r: Vec<Span>)
    ensures
        r.deep_view() == mem_heading(used@, limit.deep_view(), theme),
{
    let amount = match &limit {
        Some(l) => text::cat3(text::cat(used, " / ").as_str(), l.as_str(), " MiB"),
        None => text::cat(used, " MiB"),
    };
    let mut r: Vec<Span> = Vec::new();
    r.push(Span::new(" \u{e266}  MEM  ", Style::bold(theme.ok)));
    r.push(Span::new(amount.as_str(), Style::plain()));
    assert(r.deep_view() == mem_heading(used@, limit.deep_view(), theme));
    r
}

pub open spec fn net_heading(rx: bool, rate: Seq<char>, theme: Theme) -> Seq<SpanView> {
    seq![
        span(
            if rx {
                " \u{f433}  NET↓  "@
            } else {
                " \u{f431}  NET↑  "@
            },
            bold(theme.muted),
        ),
        span(rate, plain_style()),
    ]
}

/// The heading of a card of the traffic. The rate is given as a text.
pub fn net_title(rx: bool, rate: &str, theme: Theme) -> (r: Vec<Span>)
    ensures
        r.deep_view() == net_heading(rx, rate@, theme),
{
    let label = if rx {
        " \u{f433}  NET↓  "
    } else {
        " \u{f431}  NET↑  "
    };
    let mut r: Vec<Span> = Vec::new();
    r.push(Span::new(label, Style::bold(theme.muted)));
    r.push(Span::new(rate, Style::plain()));
    assert(r.deep_view() == net_heading(rx, rate@, theme));
    r
}

/// The line above a chart: the newest value, the mean and the highest, and what the chart's
/// scale is.
pub open spec fn chips(
    now: Seq<char>,
    avg: Seq<char>,
    peak: Seq<char>,
    label: Option<Seq<char>>,
    theme: Theme,
) -> Seq<SpanView> {
    let values = seq![
        span("  Now "@, colored(theme.muted)),
        span(now, bold(theme.fg)),
        span(" • Avg "@, colored(theme.muted)),
        span(avg, bold(theme.fg)),
        span(" • Peak "@, colored(theme.muted)),
        span(peak, bold(theme.fg)),
    ];
    match label {
        Some(l) => values + seq![span("  "@, plain_style()), span(l, colored(theme.muted))],
        None => values,
    }
}

/// The line above a chart. The values are given as texts.
pub fn chips_now_avg_peak(
    now: &str,
    avg: &str,
    peak: &str,
    label: Option<String>,
    theme: Theme,
) -> (r: Vec<Span>)
    ensures
        r.deep_view() == chips(now@, avg@, peak@, label.deep_view(), theme),
{
    let mut r: Vec<Span> = Vec::new();
    r.push(Span::new("  Now ", Style::fg(theme.muted)));
    r.push(Span::new(now, Style::bold(theme.fg)));
    r.push(Span::new(" • Avg ", Style::fg(theme.muted)));
    r.push(Span::new(avg, Style::bold(theme.fg)));
    r.push(Span::new(" • Peak ", Style::fg(theme.muted)));
    r.push(Span::new(peak, Style::bold(theme.fg)));
    if let Some(l) = &label {
        r.push(Span::new("  ", Style::plain()));
        r.push(Span::new(l.as_str(), Style::fg(theme.muted)));
    }
    assert(r.deep_view() == chips(now@, avg@, peak@, label.deep_view(), theme));
    r
}

/* ---------------- charts ---------------- */

/// One point of a chart: its height, in steps, and its colour.
#[derive(Clone, Copy, Debug, PartialEq, Eq, Structural)]
pub struct Point {
    pub height: usize,
    pub color: Color,
}

/// A point that nothing is drawn for.
pub open spec fn no_point() -> Point {
    Point { height: 0, color: Color::Black }
}

/// The points of `w` columns: the newest stand at the right, and where there are not enough the
/// columns at the left are empty.
pub open spec fn columns(hist: Seq<Point>, w: int) -> Seq<Point> {
    let taken = if hist.len() < w {
        hist.len() as int
    } else {
        w
    };
    Seq::new((w - taken) as nat, |i: int| no_point()) + hist.skip(hist.len() - taken)
}

/// However many points there are, they fill the width exactly, and the newest stands last.
pub proof fn columns_fill_the_width(hist: Seq<Point>, w: int)
    requires
        w > 0,
    ensures
        columns(hist, w).len() == w,
        hist.len() > 0 ==> columns(hist, w).last() == hist.last(),
{
}

fn take_columns(hist: &Vec<Point>, w: usize) -> (r: Vec<Point>)
    ensures
        r@ == columns(hist@, w as int),
{
    let n: usize = hist.len();
    let taken: usize = if n < w {
        n
    } else {
        w
    };
    let mut out: Vec<Point> = Vec::new();
    let mut i: usize = 0;
    while i < w - taken
        invariant
            taken <= w,
            i <= w - taken,
            out@ == Seq::new(i as nat, |k: int| no_point()),
        decreases w - taken - i,
    {
        out.push(Point { height: 0, color: Color::Black });
        i += 1;
    }
    let ghost pad = out@;
    let mut k: usize = n - taken;
    assert(hist@.subrange(n - taken, k as int) == Seq::<Point>::empty());
    while k < n
        invariant
            taken <= n,
            n - taken <= k <= n,
            n == hist@.len(),
            out@ == pad + hist@.subrange(n - taken, k as int),
        decreases n - k,
    {
        out.push(hist[k]);
        k += 1;
    }
    assert(hist@.subrange(n - taken, n as int) == hist@.skip(n - taken));
    out
}

/// A cell of a bar chart.
pub open spec fn bar_cell(p: Point, row: int) -> SpanView {
    if row < p.height {
        span("█"@, colored(p.color))
    } else {
        span(" "@, plain_style())
    }
}

/// A row of a bar chart; row 0 is the lowest.
pub open spec fn bar_row(cols: Seq<Point>, row: int) -> Seq<SpanView> {
    Seq::new(cols.len(), |j: int| bar_cell(cols[j], row))
}

/// The lines of a bar chart of some columns, the highest first.
pub open spec fn bar_lines(cols: Seq<Point>, h: int) -> Seq<Seq<SpanView>> {
    Seq::new(h as nat, |k: int| bar_row(cols, h - 1 - k))
}

/// A bar stands on the lowest row and is as high as its point says: with every cell that is
/// filled, the cell below it is filled too.
pub proof fn bars_are_solid(p: Point, row: int)
    requires
        row > 0,
        bar_cell(p, row).style == colored(p.color),
    ensures
        bar_cell(p, row - 1) == bar_cell(p, row),
{
}

pub open spec fn span_lines(l: Seq<Vec<Span>>) -> Seq<Seq<SpanView>> {
    l.map_values(|v: Vec<Span>| v.deep_view())
}

fn make_bar_row(cols: &Vec<Point>, row: usize) -> (r: Vec<Span>)
    ensures
        r.deep_view() == bar_row(cols@, row as int),
{
    let mut out: Vec<Span> = Vec::new();
    let mut j: usize = 0;
    while j < cols.len()
        invariant
            j <= cols@.len(),
            out.deep_view() == bar_row(cols@, row as int).take(j as int),
        decreases cols@.len() - j,
    {
        let ghost before = out.deep_view();
        let p = cols[j];
        let s = if row < p.height {
            Span::new("█", Style::fg(p.color))
        } else {
            Span::new(" ", Style::plain())
        };
        out.push(s);
        proof {
            assert(out.deep_view() == before.push(s@));
            let all = bar_row(cols@, row as int);
            assert(all.take(j + 1) == all.take(j as int).push(all[j as int]));
        }
        j += 1;
    }
    assert(bar_row(cols@, row as int).take(cols@.len() as int) == bar_row(cols@, row as int));
    out
}

/// The lines of a bar chart of some columns, the highest first.
pub fn make_bar_lines(cols: &Vec<Point>, h: usize) -> (r: Vec<Vec<Span>>)
    ensures
        span_lines(r@) == bar_lines(cols@, h as int),
{
    let mut out: Vec<Vec<Span>> = Vec::new();
    let mut row: usize = h;
    while row > 0
        invariant
            row <= h,
            span_lines(out@) == bar_lines(cols@, h as int).take(h - row),
        decreases row,
    {
        row -= 1;
        let ghost before = span_lines(out@);
        let line = make_bar_row(cols, row);
        out.push(line);
        proof {
            assert(span_lines(out@) == before.push(line.deep_view()));
            let all = bar_lines(cols@, h as int);
            assert(all.take(h - row) == all.take(h - row - 1).push(all[h - row - 1]));
        }
    }
    assert(bar_lines(cols@, h as int).take(h as int) == bar_lines(cols@, h as int));
    out
}

/// The lines of a bar chart of the newest points.
pub open spec fn bar_chart(hist: Seq<Point>, w: int, h: int) -> Seq<Seq<SpanView>> {
    if w == 0 || h == 0 {
        seq![seq![span(Seq::empty(), plain_style())]]
    } else {
        bar_lines(columns(hist, w), h)
    }
}

fn blank_line() -> (r: Vec<Span>)
    ensures
        r.deep_view() == seq![span(Seq::empty(), plain_style())],
{
    let none: String = String::new();
    let mut r: Vec<Span> = Vec::new();
    r.push(Span::new(none.as_str(), Style::plain()));
    assert(r.deep_view() == seq![span(Seq::empty(), plain_style())]);
    r
}

/// The lines of a bar chart of the newest points.
pub fn multiline_bar_chart(hist: &Vec<Point>, width: u16, height: u16) -> (r: Vec<Vec<Span>>)
    ensures
        span_lines(r@) == bar_chart(hist@, width as int, height as int),
{
    if width == 0 || height == 0 {
        let mut r: Vec<Vec<Span>> = Vec::new();
        let line = blank_line();
        r.push(line);
        assert(span_lines(r@) == seq![line.deep_view()]);
        return r;
    }
    let cols = take_columns(hist, width as usize);
    make_bar_lines(&cols, height as usize)
}

/// The character for a level of 0 to 7; what is higher counts as 7.
pub open spec fn block_char(level: int) -> Seq<char> {
    if level <= 0 {
        "▁"@
    } else if level == 1 {
        "▂"@
    } else if level == 2 {
        "▃"@
    } else if level == 3 {
        "▄"@
    } else if level == 4 {
        "▅"@
    } else if level == 5 {
        "▆"@
    } else if level == 6 {
        "▇"@
    } else {
        "█"@
    }
}

/// A line of blocks, the newest at the right.
pub open spec fn sparkline(hist: Seq<Point>, w: int) -> Seq<SpanView> {
    if w == 0 {
        seq![span(Seq::empty(), plain_style())]
    } else {
        let taken = if hist.len() < w {
            hist.len() as int
        } else {
            w
        };
        Seq::new(
            w as nat,
            |i: int|
                if i < w - taken {
                    span(" "@, plain_style())
                } else {
                    let p = hist[hist.len() - w + i];
                    span(block_char(p.height as int), colored(p.color))
                },
        )
    }
}

fn block_text(level: usize) -> (r: &'static str)
    ensures
        r@ == block_char(level as int),
{
    if level == 0 {
        "▁"
    } else if level == 1 {
        "▂"
    } else if level == 2 {
        "▃"
    } else if level == 3 {
        "▄"
    } else if level == 4 {
        "▅"
    } else if level == 5 {
        "▆"
    } else if level == 6 {
        "▇"
    } else {
        "█"
    }
}

/// A line of blocks, the newest at the right.
pub fn neo_sparkline_line(hist: &Vec<Point>, width: u16) -> (r: Vec<Span>)
    ensures
        r.deep_view() == sparkline(hist@, width as int),
{
    if width == 0 {
        return blank_line();
    }
    let w: usize = width as usize;
    let n: usize = hist.len();
    let taken: usize = if n < w {
        n
    } else {
        w
    };
    let ghost all = sparkline(hist@, w as int);
    let mut out: Vec<Span> = Vec::new();
    let mut i: usize = 0;
    assert(out.deep_view() == all.take(0));
    while i < w
        invariant
            i <= w,
            w == width,
            w > 0,
            n == hist@.len(),
            taken == if n < w {
                n
            } else {
                w
            },
            all == sparkline(hist@, w as int),
            out.deep_view() == all.take(i as int),
        decreases w - i,
    {
        let ghost before = out.deep_view();
        let s = if i < w - taken {
            Span::new(" ", Style::plain())
        } else {
            let p = hist[n - taken + (i - (w - taken))];
            Span::new(block_text(p.height), Style::fg(p.color))
        };
        out.push(s);
        assert(out.deep_view() == before.push(s@));
        assert(all.take(i + 1) == all.take(i as int).push(all[i as int]));
        i += 1;
    }
    assert(all.take(w as int) == all);
    out
}

/* ---------------- colours ---------------- */

/// The parts of a colour.
pub open spec fn rgb(c: Color) -> (u8, u8, u8) {
    match c {
        Color::Rgb(r, g, b) => (r, g, b),
        Color::Black => (0, 0, 0),
        Color::White => (255, 255, 255),
        Color::Gray => (128, 128, 128),
        Color::DarkGray => (64, 64, 64),
        Color::Red => (255, 0, 0),
        Color::Green => (0, 255, 0),
        Color::Blue => (0, 0, 255),
        Color::Yellow => (255, 255, 0),
        Color::Magenta => (255, 0, 255),
        Color::Cyan => (0, 255, 255),
    }
}

/// The parts of a colour.
pub fn to_rgb(c: Color) -> (r: (u8, u8, u8))
    ensures
        r == rgb(c),
{
    match c {
        Color::Rgb(r, g, b) => (r, g, b),
        Color::Black => (0, 0, 0),
        Color::White => (255, 255, 255),
        Color::Gray => (128, 128, 128),
        Color::DarkGray => (64, 64, 64),
        Color::Red => (255, 0, 0),
        Color::Green => (0, 255, 0),
        Color::Blue => (0, 0, 255),
        Color::Yellow => (255, 255, 0),
        Color::Magenta => (255, 0, 255),
        Color::Cyan => (0, 255, 255),
    }
}

} // verus!
