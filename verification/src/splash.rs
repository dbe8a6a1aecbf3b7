//! The screen that is shown while the dashboard comes up.

use crate::geometry::{
    framed, inside_frame, may_split_into, overlay, overlay_of, three_rows, Direction, Rect, Slot,
};
use crate::grid::{cells, fill, filled, is_grid, put, set_cell};
use crate::key::{KeyCode, KeyEvent};
use crate::num::{capped, clamped, less_by};
use crate::text;
use crate::theme::{bold, colored, plain_style, span, Color, Span, SpanView, Style, Theme};
use vstd::prelude::*;

verus! {

/* ---------------- what happens ---------------- */

/// How far the start has come. A share is given in thousandths.
pub enum SplashEvent {
    Step { permille: u32, label: String },
    Done,
    Fail(String),
}

#[verifier::ext_equal]
pub enum SplashEventView {
    Step { permille: u32, label: Seq<char> },
    Done,
    Fail(Seq<char>),
}

impl View for SplashEvent {
    type V = SplashEventView;

    open spec fn view(&self) -> SplashEventView {
        match self {
            SplashEvent::Step { permille, label } => SplashEventView::Step {
                permille: *permille,
                label: label@,
            },
            SplashEvent::Done => SplashEventView::Done,
            SplashEvent::Fail(m) => SplashEventView::Fail(m@),
        }
    }
}

impl DeepView for SplashEvent {
    type V = SplashEventView;

    open spec fn deep_view(&self) -> SplashEventView {
        self@
    }
}

pub struct SplashScreen {
    pub theme: Theme,
    pub tick: u64,
    /// The share that the bar moves towards, in thousandths.
    pub target: u32,
    pub label: String,
    pub done: bool,
    /// When the start was done, in milliseconds.
    pub done_at: Option<u64>,
    pub fail: Option<String>,
    pub skip_requested: bool,
    pub star_seed: u64,
}

#[verifier::ext_equal]
pub struct SplashModel {
    pub theme: Theme,
    pub tick: u64,
    pub target: u32,
    pub label: Seq<char>,
    pub done: bool,
    pub done_at: Option<u64>,
    pub fail: Option<Seq<char>>,
    pub skip_requested: bool,
    pub star_seed: u64,
}

impl View for SplashScreen {
    type V = SplashModel;

    open spec fn view(&self) -> SplashModel {
        SplashModel {
            theme: self.theme,
            tick: self.tick,
            target: self.target,
            label: self.label@,
            done: self.done,
            done_at: self.done_at,
            fail: self.fail.deep_view(),
            skip_requested: self.skip_requested,
            star_seed: self.star_seed,
        }
    }
}

impl SplashModel {
    pub open spec fn fresh(theme: Theme, seed: u64) -> SplashModel {
        SplashModel {
            theme,
            tick: 0,
            target: 0,
            label: "initialisation…"@,
            done: false,
            done_at: None,
            fail: None,
            skip_requested: false,
            star_seed: seed,
        }
    }

    pub open spec fn on_key(self, key: KeyEvent) -> SplashModel {
        match key.code {
            KeyCode::Esc | KeyCode::Enter => SplashModel { skip_requested: true, ..self },
            _ => self,
        }
    }

    pub open spec fn heard(self, ev: SplashEventView, now: u64) -> SplashModel {
        match ev {
            SplashEventView::Step { permille, label } => SplashModel {
                target: if permille > 1000 {
                    1000
                } else {
                    permille
                },
                label,
                ..self
            },
            SplashEventView::Done => SplashModel {
                target: 1000,
                done: true,
                done_at: Some(now),
                ..self
            },
            SplashEventView::Fail(m) => SplashModel { fail: Some(m), ..self },
        }
    }

    pub open spec fn heard_all(self, l: Seq<SplashEventView>, now: u64) -> SplashModel
        decreases l.len(),
    {
        if l.len() == 0 {
            self
        } else {
            self.heard_all(l.drop_last(), now).heard(l.last(), now)
        }
    }

    pub open spec fn ticked(self, l: Seq<SplashEventView>, now: u64) -> SplashModel {
        SplashModel { tick: self.tick.wrapping_add(1), ..self }.heard_all(l, now)
    }

    /// The screen may go: the start is done and did not fail, the bar is full, and it was so
    /// for a moment or the user is in a hurry.
    pub open spec fn ready(self, bar_full: bool, now: u64) -> bool {
        &&& self.fail is None
        &&& self.done
        &&& bar_full
        &&& (self.done_at matches Some(t) && now - t >= 400) || self.skip_requested
    }

    /// The line at the foot.
    pub open spec fn foot(self) -> Seq<SpanView> {
        match self.fail {
            Some(err) => seq![
                span(" init failed: "@, bold(self.theme.err)),
                span(err, colored(self.theme.err)),
                span("  • press q to quit"@, plain_style()),
            ],
            None => seq![
                span(" step: "@ + self.label, colored(self.theme.fg)),
                span("  • esc/enter: skip  • q: quit"@, plain_style()),
            ],
        }
    }
}

proof fn failure_is_kept(m: SplashModel, l: Seq<SplashEventView>, now: u64)
    requires
        m.fail is Some,
    ensures
        m.heard_all(l, now).fail is Some,
    decreases l.len(),
{
    if l.len() > 0 {
        failure_is_kept(m, l.drop_last(), now);
    }
}

/// A start that failed never gets past this screen, whatever comes after.
pub proof fn failed_start_stays(
    m: SplashModel,
    l: Seq<SplashEventView>,
    key: KeyEvent,
    bar_full: bool,
    now: u64,
)
    requires
        m.fail is Some,
    ensures
        !m.ready(bar_full, now),
        m.ticked(l, now).fail is Some,
        m.on_key(key).fail is Some,
        !m.ticked(l, now).ready(bar_full, now),
        !m.on_key(key).ready(bar_full, now),
{
    failure_is_kept(SplashModel { tick: m.tick.wrapping_add(1), ..m }, l, now);
}

impl SplashScreen {
    /// A fresh screen. The seed says where the stars are.
    pub fn new(theme: Theme, seed: u64) -> (r: SplashScreen)
        ensures
            r@ == SplashModel::fresh(theme, seed),
    {
        SplashScreen {
            theme,
            tick: 0,
            target: 0,
            label: "initialisation…".to_owned(),
            done: false,
            done_at: None,
            fail: None,
            skip_requested: false,
            star_seed: seed,
        }
    }

    pub fn on_key(&mut self, key: KeyEvent)
        ensures
            final(self)@ == old(self)@.on_key(key),
    {
        match key.code {
            KeyCode::Esc | KeyCode::Enter => {
                self.skip_requested = true;
            },
            _ => {},
        }
    }

    fn hear(&mut self, ev: &SplashEvent, now: u64)
        ensures
            final(self)@ == old(self)@.heard(ev@, now),
    {
        match ev {
            SplashEvent::Step { permille, label } => {
                self.target = if *permille > 1000 {
                    1000
                } else {
                    *permille
                };
                self.label = label.clone();
            },
            SplashEvent::Done => {
                self.target = 1000;
                self.done = true;
                self.done_at = Some(now);
            },
            SplashEvent::Fail(msg) => {
                self.fail = Some(msg.clone());
            },
        }
    }

    /// A tick, at which some events are heard.
    pub fn on_tick(&mut self, events: &Vec<SplashEvent>, now: u64)
        ensures
            final(self)@ == old(self)@.ticked(events.deep_view(), now),
    {
        self.tick = self.tick.wrapping_add(1);
        let ghost m = self@;
        let ghost l = events.deep_view();
        let mut i: usize = 0;
        assert(l.take(0) == Seq::<SplashEventView>::empty());
        while i < events.len()
            invariant
                i <= events@.len(),
                l == events.deep_view(),
                self@ == m.heard_all(l.take(i as int), now),
            decreases events@.len() - i,
        {
            assert(l.take(i + 1).drop_last() == l.take(i as int));
            assert(l[i as int] == events@[i as int]@);
            self.hear(&events[i], now);
            i += 1;
        }
        assert(l.take(l.len() as int) == l);
    }

    /// May the screen go? `bar_full` says that the bar has come to its end.
    pub fn is_ready_to_close(&self, bar_full: bool, now: u64) -> (r: bool)
        ensures
            r == self@.ready(bar_full, now),
    {
        if self.fail.is_some() || !self.done {
            return false;
        }
        let hold_ok = match self.done_at {
            Some(t) => now >= t && now - t >= 400,
            None => false,
        };
        bar_full && (hold_ok || self.skip_requested)
    }

    /// The line at the foot.
    pub fn foot_line(&self) -> (r: Vec<Span>)
        ensures
            r.deep_view() == self@.foot(),
    {
        let mut r: Vec<Span> = Vec::new();
        match &self.fail {
            Some(err) => {
                r.push(Span::new(" init failed: ", Style::bold(self.theme.err)));
                r.push(Span::new(err.as_str(), Style::fg(self.theme.err)));
                r.push(Span::new("  • press q to quit", Style::plain()));
            },
            None => {
                let step = text::cat(" step: ", self.label.as_str());
                r.push(Span::new(step.as_str(), Style::fg(self.theme.fg)));
                r.push(Span::new("  • esc/enter: skip  • q: quit", Style::plain()));
            },
        }
        assert(r.deep_view() == self@.foot());
        r
    }
}

/* ---------------- areas ---------------- */

/// Where the parts of the screen stand.
#[derive(Clone, Copy, Debug, PartialEq, Eq, Structural)]
pub struct SplashAreas {
    pub overlay: Rect,
    pub space: Rect,
    pub progress: Rect,
    pub foot: Rect,
    pub banner: Rect,
    pub version: Rect,
}

/// The screen takes four fifths of the area, and at least 70 by 28 cells. The banner, of eight
/// rows, stands in the middle of the space, and the version at the top right.
pub open spec fn splash_stands(a: SplashAreas, area: Rect) -> bool {
    let o = a.overlay;
    &&& overlay_of(area, 4, 5, 70, 28) == Some(o)
    &&& may_split_into(
        framed(o),
        Direction::Rows,
        seq![Slot::Min((o.height - 9) as u16), Slot::Length(5), Slot::Length(2)],
        seq![a.space, a.progress, a.foot],
    )
    &&& a.banner.x == a.space.x && a.banner.width == a.space.width && a.banner.height == 8
    &&& a.banner.y == capped(a.space.y + less_by(a.space.height as int, 8) / 2)
    &&& a.version == (Rect {
        x: capped(o.x + less_by(o.width as int, 8)) as u16,
        y: o.y,
        width: 8,
        height: 1,
    })
}

/// Where the parts of the screen stand, or `None` where there is no room for it.
pub fn splash_areas(area: Rect) -> (r: Option<SplashAreas>)
    ensures
        match r {
            Some(a) => splash_stands(a, area),
            None => overlay_of(area, 4, 5, 70, 28) is None,
        },
{
    let o = match overlay(area, 4, 5, 70, 28) {
        Some(o) => o,
        None => {
            return None;
        },
    };
    assert(o.height >= 28);
    let (space, progress, foot) = three_rows(
        inside_frame(o),
        Slot::Min(o.height - 9),
        Slot::Length(5),
        Slot::Length(2),
    );
    let banner = Rect {
        x: space.x,
        y: space.y.saturating_add(space.height.saturating_sub(8) / 2),
        width: space.width,
        height: 8,
    };
    let version = Rect {
        x: o.x.saturating_add(o.width.saturating_sub(8)),
        y: o.y,
        width: 8,
        height: 1,
    };
    Some(SplashAreas { overlay: o, space, progress, foot, banner, version })
}

/// The version, in small letters.
pub fn version_label(version: &str, theme: Theme) -> (r: Span)
    ensures
        r@ == span("v"@ + version@, Style { fg: Some(theme.muted), bg: None, bold: false, dim: true }),
{
    Span::new(
        text::cat("v", version).as_str(),
        Style { fg: Some(theme.muted), bg: None, bold: false, dim: true },
    )
}

/* ---------------- the banner ---------------- */

/// A row of a letter, eight cells wide; letters that the banner does not need are blank.
pub open spec fn glyph_line(ch: char, row: int) -> Seq<char> {
    match ch {
        'D' => if row == 0 || row == 6 {
            "██████  "@
        } else if row == 1 || row == 5 {
            "██   ██ "@
        } else if row == 2 || row == 3 || row == 4 {
            "██    ██"@
        } else {
            "        "@
        },
        'O' => if row == 0 || row == 6 {
            " █████  "@
        } else if row == 1 || row == 2 || row == 3 || row == 4 || row == 5 {
            "██   ██ "@
        } else {
            "        "@
        },
        'C' => if row == 0 || row == 6 {
            " ██████ "@
        } else if row == 1 || row == 2 || row == 3 || row == 4 || row == 5 {
            "██      "@
        } else {
            "        "@
        },
        'K' => if row == 0 || row == 6 {
            "██  ██  "@
        } else if row == 1 || row == 5 {
            "██ ██   "@
        } else if row == 2 || row == 4 {
            "████    "@
        } else if row == 3 {
            "███     "@
        } else {
            "        "@
        },
        'R' => if row == 0 || row == 2 {
            "██████  "@
        } else if row == 1 || row == 4 || row == 5 || row == 6 {
            "██   ██ "@
        } else if row == 3 {
            "██  ██  "@
        } else {
            "        "@
        },
        'T' => if row == 0 {
            "████████"@
        } else if row == 1 || row == 2 || row == 3 || row == 4 || row == 5 || row == 6 {
            "   ██   "@
        } else {
            "        "@
        },
        'U' => if row == 0 || row == 1 || row == 2 || row == 3 || row == 4 || row == 5 {
            "██   ██ "@
        } else if row == 6 {
            " █████  "@
        } else {
            "        "@
        },
        'I' => if row == 0 || row == 6 {
            "████████"@
        } else if row == 1 || row == 2 || row == 3 || row == 4 || row == 5 {
            "   ██   "@
        } else {
            "        "@
        },
        _ => "        "@,
    }
}

/// A row of a letter.
fn glyph_text(ch: char, row: usize) -> (r: &'static str)
    ensures
        r@ == glyph_line(ch, row as int),
{
    match ch {
        'D' => if row == 0 || row == 6 {
            "██████  "
        } else if row == 1 || row == 5 {
            "██   ██ "
        } else if row == 2 || row == 3 || row == 4 {
            "██    ██"
        } else {
            "        "
        },
        'O' => if row == 0 || row == 6 {
            " █████  "
        } else if row == 1 || row == 2 || row == 3 || row == 4 || row == 5 {
            "██   ██ "
        } else {
            "        "
        },
        'C' => if row == 0 || row == 6 {
            " ██████ "
        } else if row == 1 || row == 2 || row == 3 || row == 4 || row == 5 {
            "██      "
        } else {
            "        "
        },
        'K' => if row == 0 || row == 6 {
            "██  ██  "
        } else if row == 1 || row == 5 {
            "██ ██   "
        } else if row == 2 || row == 4 {
            "████    "
        } else if row == 3 {
            "███     "
        } else {
            "        "
        },
        'R' => if row == 0 || row == 2 {
            "██████  "
        } else if row == 1 || row == 4 || row == 5 || row == 6 {
            "██   ██ "
        } else if row == 3 {
            "██  ██  "
        } else {
            "        "
        },
        'T' => if row == 0 {
            "████████"
        } else if row == 1 || row == 2 || row == 3 || row == 4 || row == 5 || row == 6 {
            "   ██   "
        } else {
            "        "
        },
        'U' => if row == 0 || row == 1 || row == 2 || row == 3 || row == 4 || row == 5 {
            "██   ██ "
        } else if row == 6 {
            " █████  "
        } else {
            "        "
        },
        'I' => if row == 0 || row == 6 {
            "████████"
        } else if row == 1 || row == 2 || row == 3 || row == 4 || row == 5 {
            "   ██   "
        } else {
            "        "
        },
        _ => "        ",
    }
}

/// A letter as large as it comes.
pub open spec fn upper(c: char) -> char {
    if 'a' <= c <= 'z' {
        ((c as u32) - 32) as char
    } else {
        c
    }
}

/// Every row of every letter is eight cells wide.
pub proof fn glyphs_are_eight_wide(ch: char, row: int)
    ensures
        glyph_line(ch, row).len() == 8,
{
    reveal_strlit("        ");
    reveal_strlit("   ██   ");
    reveal_strlit(" █████  ");
    reveal_strlit(" ██████ ");
    reveal_strlit("██      ");
    reveal_strlit("██    ██");
    reveal_strlit("██   ██ ");
    reveal_strlit("██  ██  ");
    reveal_strlit("██ ██   ");
    reveal_strlit("███     ");
    reveal_strlit("████    ");
    reveal_strlit("██████  ");
    reveal_strlit("████████");
}

/// The cells that a banner takes: eight for each letter, and two between letters.
pub open spec fn banner_width(n: int) -> int {
    if n == 0 {
        0
    } else {
        n * 10 - 2
    }
}

/// Is a cell of the banner filled?
pub open spec fn banner_cell(t: Seq<char>, row: int, x: int) -> bool {
    x % 10 < 8 && glyph_line(upper(t[x / 10]), row)[x % 10] != ' '
}

/// A row of the banner, cut at the width that there is.
pub open spec fn banner_row(t: Seq<char>, row: int, max_w: int) -> Seq<bool> {
    let w = if banner_width(t.len() as int) < max_w {
        banner_width(t.len() as int)
    } else {
        max_w
    };
    Seq::new(w as nat, |x: int| banner_cell(t, row, x))
}

fn upper_char(c: char) -> (r: char)
    ensures
        r == upper(c),
{
    if 'a' <= c && c <= 'z' {
        ((c as u8) - 32) as char
    } else {
        c
    }
}

fn make_banner_row(t: &Vec<char>, row: usize, max_w: u16) -> (r: Vec<bool>)
    ensures
        r@ == banner_row(t@, row as int, max_w as int),
{
    let n: usize = t.len();
    let room: usize = max_w as usize;
    let w: usize = if n == 0 {
        0
    } else if n >= room {
        room
    } else if n * 10 - 2 < room {
        n * 10 - 2
    } else {
        room
    };
    let ghost all = banner_row(t@, row as int, max_w as int);
    let mut out: Vec<bool> = Vec::new();
    let mut x: usize = 0;
    while x < w
        invariant
            x <= w,
            w == all.len(),
            w <= banner_width(t@.len() as int),
            all == banner_row(t@, row as int, max_w as int),
            out@ == all.take(x as int),
        decreases w - x,
    {
        let i: usize = x / 10;
        let j: usize = x % 10;
        assert(i < t@.len());
        let on = if j < 8 {
            let line = text::chars_of(glyph_text(upper_char(t[i]), row));
            proof {
                glyphs_are_eight_wide(upper(t@[i as int]), row as int);
            }
            line[j] != ' '
        } else {
            false
        };
        out.push(on);
        assert(all.take(x + 1) == all.take(x as int).push(all[x as int]));
        x += 1;
    }
    assert(all.take(w as int) == all);
    out
}

/// The eight rows of a banner, each as the cells that are filled.
pub fn render_big_banner(t: &str, max_w: u16) -> (r: Vec<Vec<bool>>)
    ensures
        r@.len() == 8,
        forall|row: int| 0 <= row < 8 ==> (#[trigger] r@[row])@ == banner_row(t@, row, max_w as int),
{
    let v = text::chars_of(t);
    let mut out: Vec<Vec<bool>> = Vec::new();
    let mut row: usize = 0;
    while row < 8
        invariant
            row <= 8,
            out@.len() == row,
            v@ == t@,
            forall|k: int|
                0 <= k < row ==> (#[trigger] out@[k])@ == banner_row(t@, k, max_w as int),
        decreases 8 - row,
    {
        let line = make_banner_row(&v, row, max_w);
        out.push(line);
        row += 1;
    }
    out
}

/* ---------------- space ---------------- */

pub type Cell = (char, Option<Color>);

/// A row of a band of mist.
#[derive(Clone, Copy, Debug, PartialEq, Eq, Structural)]
pub struct Mist {
    pub y: usize,
    pub mid: i32,
    pub thickness: u16,
    pub color: Color,
}

/// What comes from the colours of the sky and the flight of the meteor.
pub struct SkyPaint {
    pub mists: Vec<Mist>,
    /// The colour of a coloured star, by its column.
    pub tints: Vec<Color>,
    /// The row and the column of the meteor, and the colour of its head.
    pub meteor: Option<(usize, usize, Color)>,
}

/// Mist fills what is blank around its middle, within the edges.
pub open spec fn misty(c: Cell, x: int, m: Mist, w: int) -> Cell {
    if clamped(m.mid - m.thickness, 0, w - 1) <= x <= clamped(m.mid + m.thickness, 0, w - 1) && c.0
        == ' ' {
        ('▒', Some(m.color))
    } else {
        c
    }
}

pub open spec fn with_mist(g: Seq<Seq<Cell>>, m: Mist, w: int) -> Seq<Seq<Cell>> {
    g.update(m.y as int, Seq::new(w as nat, |x: int| misty(g[m.y as int][x], x, m, w)))
}

pub open spec fn with_mists(g: Seq<Seq<Cell>>, l: Seq<Mist>, w: int) -> Seq<Seq<Cell>>
    decreases l.len(),
{
    if l.len() == 0 {
        g
    } else {
        with_mist(with_mists(g, l.drop_last(), w), l.last(), w)
    }
}

/// The numbers that say where the stars are.
pub open spec fn next_seed(x: u64) -> u64 {
    x.wrapping_mul(1664525).wrapping_add(1013904223)
}

/// The next of a row of numbers.
pub fn lcg(x: u64) -> (r: u64)
    ensures
        r == next_seed(x),
{
    x.wrapping_mul(1664525).wrapping_add(1013904223)
}

/// The shape of a star, which twinkles.
pub open spec fn star_char(x: int, y: int, tick: u64) -> char {
    let tw = (tick + 2 * x + y) % 18;
    if tw <= 2 {
        '·'
    } else if tw <= 8 {
        '•'
    } else if tw <= 14 {
        '✦'
    } else {
        '•'
    }
}

/// Some stars are coloured.
pub open spec fn is_tinted(x: int, y: int) -> bool {
    (((x * 1315423911) as u64) ^ ((y * 2654435761) as u64)) % 7 == 0
}

pub open spec fn star(x: int, y: int, tick: u64, tints: Seq<Color>) -> Cell {
    (
        star_char(x, y, tick),
        Some(
            if is_tinted(x, y) {
                tints[x]
            } else {
                Color::Rgb(200, 200, 220)
            },
        ),
    )
}

/// The sky with `n` stars.
pub open spec fn starry(
    g: Seq<Seq<Cell>>,
    w: int,
    h: int,
    seed: u64,
    n: int,
    tick: u64,
    tints: Seq<Color>,
) -> Seq<Seq<Cell>>
    decreases n,
{
    if n <= 0 {
        g
    } else {
        let a = next_seed(seed);
        let b = next_seed(a);
        let x = a as int % w;
        let y = b as int % h;
        starry(put(g, y, x, star(x, y, tick, tints)), w, h, b, n - 1, tick, tints)
    }
}

/// One star for each 42 cells, and at least twenty.
pub open spec fn star_count(w: int, h: int) -> int {
    if w * h / 42 > 20 {
        w * h / 42
    } else {
        20
    }
}

/// The meteor and its tail.
pub open spec fn with_meteor(
    g: Seq<Seq<Cell>>,
    w: int,
    y: int,
    x: int,
    head: Color,
) -> Seq<Seq<Cell>> {
    let a = put(g, y, x, ('✱', Some(head)));
    let b = if x + 1 < w {
        put(a, y, x + 1, ('•', Some(Color::Rgb(255, 220, 200))))
    } else {
        a
    };
    if x + 2 < w {
        put(b, y, x + 2, ('·', Some(Color::Rgb(220, 180, 160))))
    } else {
        b
    }
}

/// A meteor is seen now and then, where there is room for it.
pub open spec fn meteor_time(w: int, h: int, tick: u64) -> bool {
    w > 12 && h > 3 && tick % 160 < 24
}

/// Is a meteor to be seen?
pub fn meteor_flies(w: u16, h: u16, tick: u64) -> (r: bool)
    ensures
        r == meteor_time(w as int, h as int, tick),
{
    w > 12 && h > 3 && tick % 160 < 24
}

/// The sky.
pub open spec fn sky(w: int, h: int, tick: u64, seed: u64, p: SkyPaint) -> Seq<Seq<Cell>> {
    let a = with_mists(filled((' ', None), w, h), p.mists@, w);
    let b = starry(a, w, h, seed, star_count(w, h), tick, p.tints@);
    match p.meteor {
        Some((y, x, head)) => if meteor_time(w, h, tick) {
            with_meteor(b, w, y as int, x as int, head)
        } else {
            b
        },
        None => b,
    }
}

impl SkyPaint {
    /// What is painted lies within the sky.
    pub open spec fn fits(self, w: int, h: int) -> bool {
        &&& self.tints@.len() == w
        &&& forall|i: int| 0 <= i < self.mists@.len() ==> (#[trigger] self.mists@[i]).y < h
        &&& self.meteor matches Some((y, x, _)) ==> y < h && x < w
    }
}

fn draw_mist(g: &mut Vec<Vec<Cell>>, m: Mist, w: u16, h: u16)
    requires
        w > 0,
        is_grid(cells(old(g)@), w as int, h as int),
        m.y < h,
    ensures
        cells(final(g)@) == with_mist(cells(old(g)@), m, w as int),
        is_grid(cells(final(g)@), w as int, h as int),
{
    let ghost start = cells(g@);
    let y: usize = m.y;
    let edge: i64 = w as i64 - 1;
    let lo: i64 = m.mid as i64 - m.thickness as i64;
    let hi: i64 = m.mid as i64 + m.thickness as i64;
    let from: i64 = if lo < 0 {
        0
    } else if lo > edge {
        edge
    } else {
        lo
    };
    let to: i64 = if hi < 0 {
        0
    } else if hi > edge {
        edge
    } else {
        hi
    };
    let ghost line = Seq::new(w as nat, |x: int| misty(start[y as int][x], x, m, w as int));
    let mut row: Vec<Cell> = Vec::new();
    let mut x: usize = 0;
    assert(start[y as int] == g@[y as int]@);
    while x < w as usize
        invariant
            x <= w,
            y < h,
            y == m.y,
            start == cells(g@),
            is_grid(start, w as int, h as int),
            start[y as int] == g@[y as int]@,
            from == clamped(m.mid - m.thickness, 0, w - 1),
            to == clamped(m.mid + m.thickness, 0, w - 1),
            line == Seq::new(w as nat, |x: int| misty(start[y as int][x], x, m, w as int)),
            row@ == line.take(x as int),
        decreases w - x,
    {
        let old_cell: Cell = g[y][x];
        let at: i64 = x as i64;
        let c: Cell = if from <= at && at <= to && old_cell.0 == ' ' {
            ('▒', Some(m.color))
        } else {
            old_cell
        };
        row.push(c);
        assert(line.take(x + 1) == line.take(x as int).push(line[x as int]));
        x += 1;
    }
    assert(line.take(w as int) == line);
    g.set(y, row);
    assert(cells(g@) == start.update(y as int, line));
}

fn draw_star(g: &mut Vec<Vec<Cell>>, w: u16, h: u16, x: usize, y: usize, tick: u64, tints: &Vec<Color>)
    requires
        is_grid(cells(old(g)@), w as int, h as int),
        x < w,
        y < h,
        tints@.len() == w,
    ensures
        cells(final(g)@) == put(
            cells(old(g)@),
            y as int,
            x as int,
            star(x as int, y as int, tick, tints@),
        ),
        is_grid(cells(final(g)@), w as int, h as int),
{
    let tw: u128 = (tick as u128 + 2 * x as u128 + y as u128) % 18;
    let ch = if tw <= 2 {
        '·'
    } else if tw <= 8 {
        '•'
    } else if tw <= 14 {
        '✦'
    } else {
        '•'
    };
    let a: u64 = x as u64 * 1315423911;
    let b: u64 = y as u64 * 2654435761;
    let color = if (a ^ b) % 7 == 0 {
        tints[x]
    } else {
        Color::Rgb(200, 200, 220)
    };
    assert(cells(g@)[y as int] == g@[y as int]@);
    set_cell(g, y, x, (ch, Some(color)));
}

/// The cells of the sky.
pub fn paint_sky(w: u16, h: u16, tick: u64, seed: u64, p: &SkyPaint) -> (r: Vec<Vec<Cell>>)
    requires
        w > 0,
        h > 0,
        p.fits(w as int, h as int),
    ensures
        cells(r@) == sky(w as int, h as int, tick, seed, *p),
        is_grid(cells(r@), w as int, h as int),
{
    let mut g: Vec<Vec<Cell>> = fill((' ', None), w as usize, h as usize);
    let ghost blank = cells(g@);
    let mut i: usize = 0;
    assert(p.mists@.take(0) == Seq::<Mist>::empty());
    while i < p.mists.len()
        invariant
            i <= p.mists@.len(),
            w > 0,
            p.fits(w as int, h as int),
            is_grid(cells(g@), w as int, h as int),
            cells(g@) == with_mists(blank, p.mists@.take(i as int), w as int),
        decreases p.mists@.len() - i,
    {
        assert(p.mists@.take(i + 1).drop_last() == p.mists@.take(i as int));
        let m: Mist = p.mists[i];
        assert(p.mists@[i as int].y < h);
        draw_mist(&mut g, m, w, h);
        i += 1;
    }
    assert(p.mists@.take(p.mists@.len() as int) == p.mists@);
    proof {
        assert(0 <= w * h <= 65535 * 65535) by (nonlinear_arith)
            requires
                0 <= w <= 65535,
                0 <= h <= 65535,
        ;
    }
    let area: u32 = w as u32 * h as u32;
    let count: u32 = if area / 42 > 20 {
        area / 42
    } else {
        20
    };
    let ghost misted = cells(g@);
    let ghost want = starry(misted, w as int, h as int, seed, count as int, tick, p.tints@);
    let mut s: u64 = seed;
    let mut left: u32 = count;
    while left > 0
        invariant
            w > 0,
            h > 0,
            p.fits(w as int, h as int),
            is_grid(cells(g@), w as int, h as int),
            want == starry(cells(g@), w as int, h as int, s, left as int, tick, p.tints@),
        decreases left,
    {
        let a: u64 = lcg(s);
        let b: u64 = lcg(a);
        let x: usize = (a % (w as u64)) as usize;
        let y: usize = (b % (h as u64)) as usize;
        draw_star(&mut g, w, h, x, y, tick, &p.tints);
        s = b;
        left -= 1;
    }
    if let Some((y, x, head)) = p.meteor {
        if meteor_flies(w, h, tick) {
            assert(cells(g@)[y as int] == g@[y as int]@);
            set_cell(&mut g, y, x, ('✱', Some(head)));
            if x + 1 < w as usize {
                assert(cells(g@)[y as int] == g@[y as int]@);
                set_cell(&mut g, y, x + 1, ('•', Some(Color::Rgb(255, 220, 200))));
            }
            if x + 2 < w as usize {
                assert(cells(g@)[y as int] == g@[y as int]@);
                set_cell(&mut g, y, x + 2, ('·', Some(Color::Rgb(220, 180, 160))));
            }
        }
    }
    g
}

/* ---------------- runs ---------------- */

pub open spec fn cell_style(c: Option<Color>) -> Style {
    match c {
        Some(c) => colored(c),
        None => plain_style(),
    }
}

/// Neighbours of one colour make up one run.
pub open spec fn runs(row: Seq<Cell>) -> Seq<(Seq<char>, Option<Color>)>
    decreases row.len(),
{
    if row.len() == 0 {
        Seq::empty()
    } else {
        let before = runs(row.drop_last());
        let (ch, color) = row.last();
        if before.len() > 0 && before.last().1 == color {
            before.drop_last().push((before.last().0.push(ch), color))
        } else {
            before.push((seq![ch], color))
        }
    }
}

pub open spec fn run_spans(l: Seq<(Seq<char>, Option<Color>)>) -> Seq<SpanView> {
    Seq::new(l.len(), |i: int| span(l[i].0, cell_style(l[i].1)))
}

/// The texts of some runs, one after the other.
pub open spec fn run_text(l: Seq<(Seq<char>, Option<Color>)>) -> Seq<char>
    decreases l.len(),
{
    if l.len() == 0 {
        Seq::empty()
    } else {
        run_text(l.drop_last()) + l.last().0
    }
}

/// Runs lose nothing: one after the other, their texts are the row, and no two neighbours have
/// the same colour.
pub proof fn runs_keep_the_row(row: Seq<Cell>)
    ensures
        run_text(runs(row)) == Seq::new(row.len(), |i: int| row[i].0),
        row.len() > 0 ==> runs(row).len() > 0 && runs(row).last().1 == row.last().1,
        forall|i: int|
            0 <= i < runs(row).len() - 1 ==> (#[trigger] runs(row)[i]).1 != runs(row)[i + 1].1,
    decreases row.len(),
{
    let chars = Seq::new(row.len(), |i: int| row[i].0);
    if row.len() == 0 {
        assert(chars == Seq::<char>::empty());
    } else {
        let start = row.drop_last();
        runs_keep_the_row(start);
        let before = runs(start);
        let (ch, color) = row.last();
        let started = Seq::new(start.len(), |i: int| start[i].0);
        assert(chars == started.push(ch));
        if before.len() > 0 && before.last().1 == color {
            let after = before.drop_last().push((before.last().0.push(ch), color));
            assert(after.drop_last() == before.drop_last());
            assert(run_text(after) == run_text(before).push(ch));
        } else {
            let after = before.push((seq![ch], color));
            assert(after.drop_last() == before);
            assert(run_text(after) == run_text(before).push(ch));
        }
    }
}

/// Groups the cells of a row into spans.
pub fn group_row(row: &Vec<Cell>) -> (r: Vec<Span>)
    ensures
        r.deep_view() == run_spans(runs(row@)),
{
    let mut out: Vec<Span> = Vec::new();
    let mut buf: String = String::new();
    let mut color: Option<Color> = None;
    let ghost mut done: Seq<(Seq<char>, Option<Color>)> = Seq::empty();
    let mut i: usize = 0;
    assert(row@.take(0) == Seq::<Cell>::empty());
    assert(out.deep_view() == run_spans(done));
    while i < row.len()
        invariant
            i <= row@.len(),
            out.deep_view() == run_spans(done),
            i == 0 ==> buf@.len() == 0 && done.len() == 0,
            i > 0 ==> buf@.len() > 0 && runs(row@.take(i as int)) == done.push((buf@, color)),
        decreases row@.len() - i,
    {
        let (ch, c) = row[i];
        let ghost now = runs(row@.take(i as int));
        assert(row@.take(i + 1).drop_last() == row@.take(i as int));
        let changed = !same_color(c, color);
        if changed {
            if !buf.as_str().is_empty() {
                let ghost before = out.deep_view();
                let s = Span::new(buf.as_str(), look(color));
                out.push(s);
                assert(out.deep_view() == before.push(s@));
                assert(run_spans(done.push((buf@, color))) == before.push(s@));
                proof {
                    done = done.push((buf@, color));
                }
            }
            buf = String::new();
            color = c;
        }
        let ghost held = buf@;
        buf.push(ch);
        proof {
            if held.len() == 0 {
                assert(buf@ == seq![ch]);
                assert(runs(row@.take(i + 1)) == done.push((buf@, color)));
            } else {
                assert(now.drop_last() == done);
                assert(runs(row@.take(i + 1)) == done.push((buf@, color)));
            }
        }
        i += 1;
    }
    assert(row@.take(row@.len() as int) == row@);
    if !buf.as_str().is_empty() {
        let ghost before = out.deep_view();
        let s = Span::new(buf.as_str(), look(color));
        out.push(s);
        assert(out.deep_view() == before.push(s@));
        assert(run_spans(done.push((buf@, color))) == before.push(s@));
    }
    out
}

fn look(c: Option<Color>) -> (r: Style)
    ensures
        r == cell_style(c),
{
    match c {
        Some(c) => Style::fg(c),
        None => Style::plain(),
    }
}

fn same_color(a: Option<Color>, b: Option<Color>) -> (r: bool)
    ensures
        r == (a == b),
{
    match (a, b) {
        (Some(x), Some(y)) => x == y,
        (None, None) => true,
        _ => false,
    }
}

/// The lines of the sky.
pub fn render_space_scene(w: u16, h: u16, tick: u64, seed: u64, p: &SkyPaint) -> (r: Vec<Vec<Span>>)
    requires
        w > 0,
        h > 0,
        p.fits(w as int, h as int),
    ensures
        r@.len() == h,
        forall|y: int|
            0 <= y < h ==> (#[trigger] r@[y]).deep_view() == run_spans(
                runs(sky(w as int, h as int, tick, seed, *p)[y]),
            ),
{
    let g = paint_sky(w, h, tick, seed, p);
    let ghost all = sky(w as int, h as int, tick, seed, *p);
    let mut out: Vec<Vec<Span>> = Vec::new();
    let mut y: usize = 0;
    while y < g.len()
        invariant
            y <= g@.len(),
            g@.len() == h,
            cells(g@) == all,
            out@.len() == y,
            forall|k: int| 0 <= k < y ==> (#[trigger] out@[k]).deep_view() == run_spans(runs(all[k])),
        decreases g@.len() - y,
    {
        assert(all[y as int] == g@[y as int]@);
        let line = group_row(&g[y]);
        out.push(line);
        y += 1;
    }
    out
}

} // verus!
