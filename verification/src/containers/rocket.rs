//! The scene that is drawn while a container starts or stops: a rocket that leaves the ground,
//! or lands on it, before a sky of stars.

use crate::containers::actions::ActionKind;
use crate::grid::{cells, is_grid, put, set_cell};
use crate::num::clamped;
use crate::text;
use rand::rngs::StdRng;
use rand::{Rng, SeedableRng};
use vstd::prelude::*;

verus! {

/* ---------------- chance ---------------- */

#[verifier::external_type_specification]
#[verifier::external_body]
pub struct ExStdRng(StdRng);

/// A number that was drawn, and the range that it was asked from, both of whose ends it may be.
#[verifier::ext_equal]
pub struct Draw {
    pub lo: int,
    pub hi: int,
    pub value: int,
}

/// The seed that a generator was made from.
pub uninterp spec fn seed_of(rng: StdRng) -> u64;

/// The numbers that a generator has given, in the order in which they were drawn.
pub uninterp spec fn draws_of(rng: StdRng) -> Seq<Draw>;

/// `StdRng::seed_from_u64`: a generator made from `seed`, which has given nothing yet.
#[verifier::external_body]
fn seeded(seed: u64) -> (r: StdRng)
    ensures
        seed_of(r) == seed,
        draws_of(r) == Seq::<Draw>::empty(),
{
    StdRng::seed_from_u64(seed)
}

/// `Rng::random_range` on a range from 0 to, not including, `n`: the next number that the
/// generator gives, and it lies in the range. Which one it is, is left unsaid: by the crate's
/// word a seed need not give the same numbers in each of its versions and configurations.
#[verifier::external_body]
fn draw_below(rng: &mut StdRng, n: usize) -> (r: usize)
    requires
        n > 0,
    ensures
        r < n,
        seed_of(*final(rng)) == seed_of(*old(rng)),
        draws_of(*final(rng)) == draws_of(*old(rng)).push(
            (Draw { lo: 0, hi: n - 1, value: r as int }),
        ),
{
    rng.random_range(0..n)
}

/// `Rng::random_range` on a range from `lo` to `hi`, both included: as for [`draw_below`].
#[verifier::external_body]
fn draw_within(rng: &mut StdRng, lo: i32, hi: i32) -> (r: i32)
    requires
        lo <= hi,
    ensures
        lo <= r <= hi,
        seed_of(*final(rng)) == seed_of(*old(rng)),
        draws_of(*final(rng)) == draws_of(*old(rng)).push(
            (Draw { lo: lo as int, hi: hi as int, value: r as int }),
        ),
{
    rng.random_range(lo..=hi)
}

pub open spec fn gave(rng: StdRng, seed: u64, draws: Seq<Draw>) -> bool {
    seed_of(rng) == seed && draws_of(rng) == draws
}

/// A generator made from `seed` gives these numbers when it is asked for them in this order.
pub open spec fn drawn_from(seed: u64, draws: Seq<Draw>) -> bool {
    exists|rng: StdRng| #[trigger] gave(rng, seed, draws)
}

/// Places within a scene.
pub open spec fn are_places(l: Seq<(usize, usize)>, w: int, h: int) -> bool {
    forall|i: int| 0 <= i < l.len() ==> (#[trigger] l[i]).0 < w && l[i].1 < h
}

/// Of each place the column is drawn first, then the row.
pub open spec fn place_draws(l: Seq<(usize, usize)>, w: int, h: int) -> Seq<Draw> {
    Seq::new(
        2 * l.len(),
        |i: int|
            if i % 2 == 0 {
                Draw { lo: 0, hi: w - 1, value: l[i / 2].0 as int }
            } else {
                Draw { lo: 0, hi: h - 1, value: l[i / 2].1 as int }
            },
    )
}

/// Steps to either side, of at most three cells.
pub open spec fn are_steps(l: Seq<i32>) -> bool {
    forall|i: int| 0 <= i < l.len() ==> -3 <= #[trigger] l[i] <= 3
}

pub open spec fn step_draws(l: Seq<i32>) -> Seq<Draw> {
    l.map_values(|n: i32| Draw { lo: -3, hi: 3, value: n as int })
}

/// Draws some places within a scene.
pub fn draw_places(seed: u64, count: usize, w: u16, h: u16) -> (r: Vec<(usize, usize)>)
    requires
        w > 0,
        h > 0,
    ensures
        r@.len() == count,
        are_places(r@, w as int, h as int),
        drawn_from(seed, place_draws(r@, w as int, h as int)),
{
    let mut rng = seeded(seed);
    let mut out: Vec<(usize, usize)> = Vec::new();
    let mut i: usize = 0;
    assert(place_draws(out@, w as int, h as int) == Seq::<Draw>::empty());
    while i < count
        invariant
            i <= count,
            out@.len() == i,
            w > 0,
            h > 0,
            are_places(out@, w as int, h as int),
            gave(rng, seed, place_draws(out@, w as int, h as int)),
        decreases count - i,
    {
        let ghost draws = draws_of(rng);
        let x: usize = draw_below(&mut rng, w as usize);
        let y: usize = draw_below(&mut rng, h as usize);
        out.push((x, y));
        assert(place_draws(out@, w as int, h as int) == draws.push(
            (Draw { lo: 0, hi: w - 1, value: x as int }),
        ).push((Draw { lo: 0, hi: h - 1, value: y as int })));
        i += 1;
    }
    out
}

/// Draws some steps to either side.
pub fn draw_steps(seed: u64, count: usize) -> (r: Vec<i32>)
    ensures
        r@.len() == count,
        are_steps(r@),
        drawn_from(seed, step_draws(r@)),
{
    let mut rng = seeded(seed);
    let mut out: Vec<i32> = Vec::new();
    let mut i: usize = 0;
    assert(step_draws(out@) == Seq::<Draw>::empty());
    while i < count
        invariant
            i <= count,
            out@.len() == i,
            are_steps(out@),
            gave(rng, seed, step_draws(out@)),
        decreases count - i,
    {
        let ghost before = out@;
        let dx: i32 = draw_within(&mut rng, -3, 3);
        out.push(dx);
        assert(step_draws(out@) == step_draws(before).push(
            (Draw { lo: -3, hi: 3, value: dx as int }),
        ));
        i += 1;
    }
    out
}

/* ---------------- measures ---------------- */

pub open spec fn above_zero(n: int) -> int {
    if n > 0 {
        n
    } else {
        0
    }
}

/// The row of the ground.
pub open spec fn ground_of(h: int) -> int {
    above_zero(h - 2)
}

/// The row on which the rocket's top is while it stands.
pub open spec fn standing(h: int) -> int {
    above_zero(ground_of(h) - 11)
}

/// The row on which the rocket's top is when it has left, far above the scene.
pub open spec fn gone(h: int) -> int {
    -(11 + (if h / 2 > 8 {
        h / 2
    } else {
        8
    }))
}

/// The first and the last row of the rocket's top when a container starts; the other way round
/// when it stops.
pub fn flight_rows(h: u16) -> (r: (i32, i32))
    ensures
        r.0 == standing(h as int),
        r.1 == gone(h as int),
{
    let ground: i32 = if h > 2 {
        h as i32 - 2
    } else {
        0
    };
    let up: i32 = if ground > 11 {
        ground - 11
    } else {
        0
    };
    let half: i32 = (h / 2) as i32;
    (up, -(11 + (if half > 8 {
        half
    } else {
        8
    })))
}

/// A clock that counts as a signed number.
pub open spec fn signed(tick: u64) -> int {
    if tick <= i64::MAX {
        tick as int
    } else {
        tick - 0x1_0000_0000_0000_0000
    }
}

/// A division that cuts off towards zero.
pub open spec fn toward_zero(n: int, d: int) -> int {
    if n >= 0 {
        n / d
    } else {
        -((-n) / d)
    }
}

/// By how many rows a layer of stars has moved.
pub open spec fn drift(shift: i32, speed: int, tick: u64) -> int {
    clamped(shift + toward_zero(signed(tick), speed * 5), -10000, 10000)
}

/// A layer of stars has one for each so many cells, and at least ten.
pub open spec fn star_count(w: int, h: int, den: int) -> int {
    if w * h / den > 10 {
        w * h / den
    } else {
        10
    }
}

/// As many stars a layer has.
pub fn count_stars(w: u16, h: u16, den: usize) -> (r: usize)
    requires
        den > 0,
    ensures
        r == star_count(w as int, h as int, den as int),
{
    proof {
        assert(0 <= w * h <= 65535 * 65535) by (nonlinear_arith)
            requires
                0 <= w <= 65535,
                0 <= h <= 65535,
        ;
    }
    let area: u32 = w as u32 * h as u32;
    let n: usize = area as usize / den;
    if n > 10 {
        n
    } else {
        10
    }
}

fn layer_drift(shift: i32, speed: i64, tick: u64) -> (r: i64)
    requires
        0 < speed <= 100,
    ensures
        r == drift(shift, speed as int, tick),
        -10000 <= r <= 10000,
{
    let d: u64 = (speed * 5) as u64;
    let steps: i128 = if tick <= 0x7fff_ffff_ffff_ffff {
        (tick / d) as i128
    } else {
        let back: u64 = u64::MAX - tick + 1;
        assert(back as int == -signed(tick));
        -((back / d) as i128)
    };
    let moved: i128 = shift as i128 + steps;
    if moved < -10000 {
        -10000
    } else if moved > 10000 {
        10000
    } else {
        moved as i64
    }
}

/* ---------------- the sky ---------------- */

/// The ground, with dots above it, under an empty sky.
pub open spec fn landscape(w: int, h: int) -> Seq<Seq<char>> {
    let ground = ground_of(h);
    Seq::new(
        h as nat,
        |y: int|
            Seq::new(
                w as nat,
                |x: int|
                    if y == above_zero(ground - 1) && x % 4 == 0 {
                        '.'
                    } else if y == ground && x % 2 == 0 {
                        '‾'
                    } else {
                        ' '
                    },
            ),
    )
}

fn draw_landscape(w: u16, h: u16) -> (r: Vec<Vec<char>>)
    ensures
        cells(r@) == landscape(w as int, h as int),
{
    let high: usize = h as usize;
    let wide: usize = w as usize;
    let ground: usize = if high > 2 {
        high - 2
    } else {
        0
    };
    let dots: usize = if ground > 1 {
        ground - 1
    } else {
        0
    };
    let ghost all = landscape(w as int, h as int);
    let mut g: Vec<Vec<char>> = Vec::new();
    let mut y: usize = 0;
    assert(cells(g@) == all.take(0));
    while y < high
        invariant
            y <= high,
            high == h,
            wide == w,
            ground == ground_of(h as int),
            dots == above_zero(ground - 1),
            all == landscape(w as int, h as int),
            cells(g@) == all.take(y as int),
        decreases high - y,
    {
        let ghost line = all[y as int];
        let mut row: Vec<char> = Vec::new();
        let mut x: usize = 0;
        while x < wide
            invariant
                x <= wide,
                y < high,
                high == h,
                wide == w,
                ground == ground_of(h as int),
                dots == above_zero(ground - 1),
                all == landscape(w as int, h as int),
                line == all[y as int],
                row@ == line.take(x as int),
            decreases wide - x,
        {
            let c = if y == dots && x % 4 == 0 {
                '.'
            } else if y == ground && x % 2 == 0 {
                '‾'
            } else {
                ' '
            };
            row.push(c);
            assert(line.take(x + 1) == line.take(x as int).push(line[x as int]));
            x += 1;
        }
        assert(line.take(wide as int) == line);
        let ghost before = cells(g@);
        g.push(row);
        assert(cells(g@) == before.push(line));
        assert(all.take(y + 1) == all.take(y as int).push(line));
        y += 1;
    }
    assert(all.take(high as int) == all);
    g
}

/// One star: it moves with its layer, comes back at the other edge, and is not drawn on the
/// ground or below it.
pub open spec fn with_star(
    g: Seq<Seq<char>>,
    h: int,
    place: (usize, usize),
    dy: int,
    ch: char,
) -> Seq<Seq<char>> {
    let y = (place.1 + dy) % h;
    if y < ground_of(h) {
        put(g, y, place.0 as int, ch)
    } else {
        g
    }
}

/// A layer of stars.
pub open spec fn with_stars(
    g: Seq<Seq<char>>,
    h: int,
    places: Seq<(usize, usize)>,
    dy: int,
    ch: char,
) -> Seq<Seq<char>>
    decreases places.len(),
{
    if places.len() == 0 {
        g
    } else {
        with_star(with_stars(g, h, places.drop_last(), dy, ch), h, places.last(), dy, ch)
    }
}

fn draw_stars(
    g: &mut Vec<Vec<char>>,
    w: u16,
    h: u16,
    places: &Vec<(usize, usize)>,
    dy: i64,
    ch: char,
)
    requires
        is_grid(cells(old(g)@), w as int, h as int),
        h > 0,
        -10000 <= dy <= 10000,
        are_places(places@, w as int, h as int),
    ensures
        cells(final(g)@) == with_stars(cells(old(g)@), h as int, places@, dy as int, ch),
        is_grid(cells(final(g)@), w as int, h as int),
{
    let ghost start = cells(g@);
    let ground: usize = if h > 2 {
        h as usize - 2
    } else {
        0
    };
    let mut i: usize = 0;
    assert(places@.take(0) == Seq::<(usize, usize)>::empty());
    while i < places.len()
        invariant
            i <= places@.len(),
            h > 0,
            -10000 <= dy <= 10000,
            ground == ground_of(h as int),
            are_places(places@, w as int, h as int),
            is_grid(cells(g@), w as int, h as int),
            cells(g@) == with_stars(start, h as int, places@.take(i as int), dy as int, ch),
        decreases places@.len() - i,
    {
        assert(places@.take(i + 1).drop_last() == places@.take(i as int));
        assert(places@[i as int].0 < w && places@[i as int].1 < h);
        let (x, y0) = places[i];
        let lifted: u64 = (y0 as i64 + dy + h as i64 * 10000) as u64;
        let y: usize = (lifted % (h as u64)) as usize;
        proof {
            vstd::arithmetic::div_mod::lemma_mod_multiples_vanish(
                10000,
                y0 as int + dy as int,
                h as int,
            );
            assert(h * 10000 == 10000 * h);
        }
        if y < ground {
            assert(cells(g@)[y as int] == g@[y as int]@);
            set_cell(g, y, x, ch);
        }
        i += 1;
    }
    assert(places@.take(places@.len() as int) == places@);
}

/* ---------------- the rocket ---------------- */

pub open spec fn rocket_line(i: int) -> Seq<char> {
    if i == 0 {
        "   /\\   "@
    } else if i == 1 {
        "  /  \\  "@
    } else if i == 2 {
        " /++++\\ "@
    } else if i == 3 || i == 4 {
        " | ++ | "@
    } else if i == 5 {
        " |____| "@
    } else if i == 6 {
        "/|####|\\"@
    } else if i == 7 {
        "| |##| |"@
    } else if i == 8 {
        " \\====/ "@
    } else {
        "   ||   "@
    }
}

fn rocket_text(i: usize) -> (r: Vec<char>)
    ensures
        r@ == rocket_line(i as int),
        r@.len() == 8,
{
    let s = if i == 0 {
        "   /\\   "
    } else if i == 1 {
        "  /  \\  "
    } else if i == 2 {
        " /++++\\ "
    } else if i == 3 || i == 4 {
        " | ++ | "
    } else if i == 5 {
        " |____| "
    } else if i == 6 {
        "/|####|\\"
    } else if i == 7 {
        "| |##| |"
    } else if i == 8 {
        " \\====/ "
    } else {
        "   ||   "
    };
    proof {
        reveal_strlit("   /\\   ");
        reveal_strlit("  /  \\  ");
        reveal_strlit(" /++++\\ ");
        reveal_strlit(" | ++ | ");
        reveal_strlit(" |____| ");
        reveal_strlit("/|####|\\");
        reveal_strlit("| |##| |");
        reveal_strlit(" \\====/ ");
        reveal_strlit("   ||   ");
    }
    text::chars_of(s)
}

/// A cell of the rocket whose top left corner is at the given place, above the ground.
pub open spec fn on_rocket(y: int, x: int, top: int, left: int, h: int) -> bool {
    y < ground_of(h) && 0 <= y - top < 11 && 0 <= x - left < 8
}

pub open spec fn with_rocket(
    g: Seq<Seq<char>>,
    w: int,
    h: int,
    top: int,
    left: int,
) -> Seq<Seq<char>> {
    Seq::new(
        h as nat,
        |y: int|
            Seq::new(
                w as nat,
                |x: int|
                    if on_rocket(y, x, top, left, h) {
                        rocket_line(y - top)[x - left]
                    } else {
                        g[y][x]
                    },
            ),
    )
}

fn draw_rocket(g: &Vec<Vec<char>>, w: u16, h: u16, top: i64, left: i64) -> (r: Vec<Vec<char>>)
    requires
        is_grid(cells(g@), w as int, h as int),
        -0x1_0000_0000 <= top <= 0x1_0000_0000,
        0 <= left <= 65535,
    ensures
        cells(r@) == with_rocket(cells(g@), w as int, h as int, top as int, left as int),
        is_grid(cells(r@), w as int, h as int),
{
    let high: usize = h as usize;
    let wide: usize = w as usize;
    let ground: usize = if high > 2 {
        high - 2
    } else {
        0
    };
    let ghost gv = cells(g@);
    let ghost all = with_rocket(gv, w as int, h as int, top as int, left as int);
    let mut out: Vec<Vec<char>> = Vec::new();
    let mut y: usize = 0;
    assert(cells(out@) == all.take(0));
    while y < high
        invariant
            y <= high,
            high == h,
            wide == w,
            ground == ground_of(h as int),
            -0x1_0000_0000 <= top <= 0x1_0000_0000,
            0 <= left <= 65535,
            gv == cells(g@),
            is_grid(gv, w as int, h as int),
            all == with_rocket(gv, w as int, h as int, top as int, left as int),
            cells(out@) == all.take(y as int),
        decreases high - y,
    {
        let i: i64 = y as i64 - top;
        let on = y < ground && 0 <= i && i < 11;
        let line: Vec<char> = if on {
            rocket_text(i as usize)
        } else {
            Vec::new()
        };
        let ghost drawn = all[y as int];
        assert(gv[y as int] == g@[y as int]@);
        let mut row: Vec<char> = Vec::new();
        let mut x: usize = 0;
        while x < wide
            invariant
                x <= wide,
                y < high,
                high == h,
                wide == w,
                ground == ground_of(h as int),
                0 <= left <= 65535,
                i == y - top,
                on == (y < ground && 0 <= i < 11),
                on ==> line@ == rocket_line(i as int) && line@.len() == 8,
                gv == cells(g@),
                is_grid(gv, w as int, h as int),
                gv[y as int] == g@[y as int]@,
                all == with_rocket(gv, w as int, h as int, top as int, left as int),
                drawn == all[y as int],
                row@ == drawn.take(x as int),
            decreases wide - x,
        {
            let j: i64 = x as i64 - left;
            let c = if on && 0 <= j && j < 8 {
                line[j as usize]
            } else {
                g[y][x]
            };
            row.push(c);
            assert(drawn.take(x + 1) == drawn.take(x as int).push(drawn[x as int]));
            x += 1;
        }
        assert(drawn.take(wide as int) == drawn);
        let ghost before = cells(out@);
        out.push(row);
        assert(cells(out@) == before.push(drawn));
        assert(all.take(y + 1) == all.take(y as int).push(drawn));
        y += 1;
    }
    assert(all.take(high as int) == all);
    out
}

/* ---------------- the flame ---------------- */

pub open spec fn flame_char(dy: int, tick: u64) -> char {
    let k = (dy + (tick as int / 2) % 3) % 4;
    if k == 0 {
        '╽'
    } else if k == 2 {
        '╿'
    } else {
        '│'
    }
}

/// The column of one of the three tongues of the flame, which flicker.
pub open spec fn tongue(w: int, center: int, dy: int, dx: int, tick: u64) -> int {
    let side = if dx < 0 {
        -dx
    } else {
        dx
    };
    clamped(center + dx + (tick + dy + side) % 3 - 1, 0, w - 1)
}

/// A row of the flame, `dy` rows below the rocket.
pub open spec fn with_flame_row(
    g: Seq<Seq<char>>,
    w: int,
    h: int,
    base: int,
    center: int,
    dy: int,
    tick: u64,
) -> Seq<Seq<char>> {
    let y = base + dy;
    if 0 <= y < ground_of(h) {
        let c = flame_char(dy, tick);
        put(
            put(
                put(g, y, tongue(w, center, dy, -2, tick), c),
                y,
                tongue(w, center, dy, 0, tick),
                c,
            ),
            y,
            tongue(w, center, dy, 2, tick),
            c,
        )
    } else {
        g
    }
}

/// A flame of `n` rows.
pub open spec fn with_flame(
    g: Seq<Seq<char>>,
    w: int,
    h: int,
    base: int,
    center: int,
    n: int,
    tick: u64,
) -> Seq<Seq<char>>
    decreases n,
{
    if n <= 0 {
        g
    } else {
        with_flame_row(
            with_flame(g, w, h, base, center, n - 1, tick),
            w,
            h,
            base,
            center,
            n - 1,
            tick,
        )
    }
}

fn clamp_column(x: i64, w: u16) -> (r: usize)
    requires
        w > 0,
    ensures
        r == clamped(x as int, 0, w - 1),
        r < w,
{
    if x < 0 {
        0
    } else if x > w as i64 - 1 {
        w as usize - 1
    } else {
        x as usize
    }
}

fn tongue_column(w: u16, center: i64, dy: u16, dx: i64, tick: u64) -> (r: usize)
    requires
        w > 0,
        -2 <= dx <= 2,
        -0x1_0000_0000 <= center <= 0x1_0000_0000,
    ensures
        r == tongue(w as int, center as int, dy as int, dx as int, tick),
        r < w,
{
    let side: u128 = if dx < 0 {
        (-dx) as u128
    } else {
        dx as u128
    };
    let jitter: i64 = ((tick as u128 + dy as u128 + side) % 3) as i64 - 1;
    clamp_column(center + dx + jitter, w)
}

fn draw_flame(
    g: &mut Vec<Vec<char>>,
    w: u16,
    h: u16,
    base: i64,
    center: i64,
    n: u16,
    tick: u64,
)
    requires
        is_grid(cells(old(g)@), w as int, h as int),
        w > 0,
        -0x1_0000_0000 <= base <= 0x1_0000_0000,
        -0x1_0000_0000 <= center <= 0x1_0000_0000,
    ensures
        cells(final(g)@) == with_flame(
            cells(old(g)@),
            w as int,
            h as int,
            base as int,
            center as int,
            n as int,
            tick,
        ),
        is_grid(cells(final(g)@), w as int, h as int),
{
    let ghost start = cells(g@);
    let ground: i64 = if h > 2 {
        h as i64 - 2
    } else {
        0
    };
    let mut dy: u16 = 0;
    while dy < n
        invariant
            dy <= n,
            w > 0,
            -0x1_0000_0000 <= base <= 0x1_0000_0000,
            -0x1_0000_0000 <= center <= 0x1_0000_0000,
            ground == ground_of(h as int),
            is_grid(cells(g@), w as int, h as int),
            cells(g@) == with_flame(
                start,
                w as int,
                h as int,
                base as int,
                center as int,
                dy as int,
                tick,
            ),
        decreases n - dy,
    {
        let y: i64 = base + dy as i64;
        if 0 <= y && y < ground {
            let k: u64 = (dy as u64 + (tick / 2) % 3) % 4;
            let c = if k == 0 {
                '╽'
            } else if k == 2 {
                '╿'
            } else {
                '│'
            };
            let a: usize = tongue_column(w, center, dy, -2, tick);
            let b: usize = tongue_column(w, center, dy, 0, tick);
            let d: usize = tongue_column(w, center, dy, 2, tick);
            let row: usize = y as usize;
            assert(cells(g@)[y as int] == g@[y as int]@);
            set_cell(g, row, a, c);
            assert(cells(g@)[y as int] == g@[y as int]@);
            set_cell(g, row, b, c);
            assert(cells(g@)[y as int] == g@[y as int]@);
            set_cell(g, row, d, c);
        }
        dy += 1;
    }
}

/* ---------------- smoke and dust ---------------- */

/// The row of the smoke.
pub open spec fn smoke_row(h: int, tick: u64) -> int {
    above_zero(ground_of(h) - 1) - (tick as int % 6) / 3
}

/// One puff of smoke.
pub open spec fn with_puff(
    g: Seq<Seq<char>>,
    w: int,
    h: int,
    center: int,
    dx: int,
    tick: u64,
) -> Seq<Seq<char>> {
    let y = smoke_row(h, tick);
    let x = clamped(center + dx, 0, w - 1);
    if 1 <= y < ground_of(h) {
        put(
            g,
            y,
            x,
            if (tick + x) % 2 == 0 {
                '·'
            } else {
                ','
            },
        )
    } else {
        g
    }
}

pub open spec fn with_smoke(
    g: Seq<Seq<char>>,
    w: int,
    h: int,
    center: int,
    steps: Seq<i32>,
    tick: u64,
) -> Seq<Seq<char>>
    decreases steps.len(),
{
    if steps.len() == 0 {
        g
    } else {
        with_puff(
            with_smoke(g, w, h, center, steps.drop_last(), tick),
            w,
            h,
            center,
            steps.last() as int,
            tick,
        )
    }
}

fn draw_smoke(
    g: &mut Vec<Vec<char>>,
    w: u16,
    h: u16,
    center: i64,
    steps: &Vec<i32>,
    tick: u64,
)
    requires
        is_grid(cells(old(g)@), w as int, h as int),
        w > 0,
        -0x1_0000_0000 <= center <= 0x1_0000_0000,
    ensures
        cells(final(g)@) == with_smoke(
            cells(old(g)@),
            w as int,
            h as int,
            center as int,
            steps@,
            tick,
        ),
        is_grid(cells(final(g)@), w as int, h as int),
{
    let ghost start = cells(g@);
    let ground: i64 = if h > 2 {
        h as i64 - 2
    } else {
        0
    };
    let y: i64 = (if ground > 1 {
        ground - 1
    } else {
        0
    }) - ((tick % 6) / 3) as i64;
    let mut i: usize = 0;
    assert(steps@.take(0) == Seq::<i32>::empty());
    while i < steps.len()
        invariant
            i <= steps@.len(),
            w > 0,
            -0x1_0000_0000 <= center <= 0x1_0000_0000,
            ground == ground_of(h as int),
            y == smoke_row(h as int, tick),
            is_grid(cells(g@), w as int, h as int),
            cells(g@) == with_smoke(
                start,
                w as int,
                h as int,
                center as int,
                steps@.take(i as int),
                tick,
            ),
        decreases steps@.len() - i,
    {
        assert(steps@.take(i + 1).drop_last() == steps@.take(i as int));
        let x: usize = clamp_column(center + steps[i] as i64, w);
        if 1 <= y && y < ground {
            let c = if (tick as u128 + x as u128) % 2 == 0 {
                '·'
            } else {
                ','
            };
            assert(cells(g@)[y as int] == g@[y as int]@);
            set_cell(g, y as usize, x, c);
        }
        i += 1;
    }
    assert(steps@.take(steps@.len() as int) == steps@);
}

/// The dust of a landing, to either side of the rocket.
pub open spec fn dust_cell(x: int, old: char, from: int, to: int, tick: u64) -> char {
    if from <= x < to && (x + tick) % 2 == 0 {
        if (x + tick as int / 2) % 3 == 0 {
            '~'
        } else {
            '='
        }
    } else {
        old
    }
}

pub open spec fn with_dust(
    g: Seq<Seq<char>>,
    w: int,
    h: int,
    left: int,
    spread: int,
    tick: u64,
) -> Seq<Seq<char>> {
    let y = above_zero(ground_of(h) - 1);
    let from = above_zero(left - spread / 2);
    let to = if left + 8 + spread / 2 < w {
        left + 8 + spread / 2
    } else {
        w
    };
    g.update(y, Seq::new(w as nat, |x: int| dust_cell(x, g[y][x], from, to, tick)))
}

fn draw_dust(g: &mut Vec<Vec<char>>, w: u16, h: u16, left: i64, spread: u16, tick: u64)
    requires
        is_grid(cells(old(g)@), w as int, h as int),
        h > 0,
        0 <= left <= 65535,
    ensures
        cells(final(g)@) == with_dust(
            cells(old(g)@),
            w as int,
            h as int,
            left as int,
            spread as int,
            tick,
        ),
        is_grid(cells(final(g)@), w as int, h as int),
{
    let ghost start = cells(g@);
    let y: usize = if h > 3 {
        h as usize - 3
    } else {
        0
    };
    let half: i64 = (spread / 2) as i64;
    let from: i64 = if left > half {
        left - half
    } else {
        0
    };
    let to: i64 = if left + 8 + half < w as i64 {
        left + 8 + half
    } else {
        w as i64
    };
    let ghost line = Seq::new(
        w as nat,
        |x: int| dust_cell(x, start[y as int][x], from as int, to as int, tick),
    );
    let mut row: Vec<char> = Vec::new();
    let mut x: usize = 0;
    assert(start[y as int] == g@[y as int]@);
    while x < w as usize
        invariant
            x <= w,
            y < h,
            is_grid(start, w as int, h as int),
            start == cells(g@),
            start[y as int] == g@[y as int]@,
            line == Seq::new(
                w as nat,
                |x: int| dust_cell(x, start[y as int][x], from as int, to as int, tick),
            ),
            row@ == line.take(x as int),
        decreases w - x,
    {
        let at: i64 = x as i64;
        let c = if from <= at && at < to && (x as u128 + tick as u128) % 2 == 0 {
            if (x as u128 + (tick / 2) as u128) % 3 == 0 {
                '~'
            } else {
                '='
            }
        } else {
            g[y][x]
        };
        row.push(c);
        assert(line.take(x + 1) == line.take(x as int).push(line[x as int]));
        x += 1;
    }
    assert(line.take(w as int) == line);
    g.set(y, row);
    assert(cells(g@) == start.update(y as int, line));
}

/* ---------------- the scene ---------------- */

/// Where the rocket is, and how strongly it burns, for the share of the action that is done.
#[derive(Clone, Copy, Debug, PartialEq, Eq)]
pub struct Flight {
    /// By how many rows each layer of stars is shifted.
    pub shifts: (i32, i32, i32),
    /// The row of the rocket's top.
    pub top: i32,
    /// How far the rocket stands from the middle.
    pub wobble: i32,
    pub flame: u16,
    pub puffs: u16,
    pub spread: u16,
}

/// What was drawn by chance: the stars of the three layers, and the puffs of smoke.
pub struct Chances {
    pub far: Vec<(usize, usize)>,
    pub middle: Vec<(usize, usize)>,
    pub near: Vec<(usize, usize)>,
    pub steps: Vec<i32>,
}

impl Chances {
    pub open spec fn fit(self, w: int, h: int) -> bool {
        &&& are_places(self.far@, w, h)
        &&& are_places(self.middle@, w, h)
        &&& are_places(self.near@, w, h)
        &&& are_steps(self.steps@)
    }
}

pub open spec fn center_of(w: int, f: Flight) -> int {
    w / 2 + f.wobble
}

pub open spec fn left_of(w: int, f: Flight) -> int {
    clamped(center_of(w, f) - 4, 0, above_zero(w - 8))
}

/// The sky: the ground, and the stars before it.
pub open spec fn sky(w: int, h: int, f: Flight, c: Chances, tick: u64) -> Seq<Seq<char>> {
    let a = with_stars(landscape(w, h), h, c.far@, drift(f.shifts.0, 10, tick), '·');
    let b = with_stars(a, h, c.middle@, drift(f.shifts.1, 6, tick), '˙');
    with_stars(b, h, c.near@, drift(f.shifts.2, 4, tick), '·')
}

/// The whole scene.
pub open spec fn scene(kind: ActionKind, w: int, h: int, f: Flight, c: Chances, tick: u64) -> Seq<
    Seq<char>,
> {
    let ground = ground_of(h);
    let base = f.top + 11;
    let center = center_of(w, f);
    let left = left_of(w, f);
    let flown = with_flame(
        with_rocket(sky(w, h, f, c, tick), w, h, f.top as int, left),
        w,
        h,
        base,
        center,
        f.flame as int,
        tick,
    );
    match kind {
        ActionKind::Starting => if base + 2 >= ground {
            with_smoke(flown, w, h, center, c.steps@, tick)
        } else {
            flown
        },
        ActionKind::Stopping => if base + 1 >= ground {
            with_dust(flown, w, h, left, f.spread as int, tick)
        } else {
            flown
        },
    }
}

/// The text of a scene, row by row.
pub open spec fn scene_text(kind: ActionKind, w: int, h: int, f: Flight, c: Chances, tick: u64) -> Seq<
    char,
> {
    if w == 0 || h == 0 {
        Seq::empty()
    } else {
        text::joined(scene(kind, w, h, f, c, tick), "\n"@)
    }
}

/// Rows of the same length, and those from the ground on the same.
pub open spec fn same_below(a: Seq<Seq<char>>, b: Seq<Seq<char>>, w: int, h: int) -> bool {
    &&& is_grid(a, w, h)
    &&& is_grid(b, w, h)
    &&& forall|y: int| ground_of(h) <= y < h ==> #[trigger] a[y] == b[y]
}

proof fn stars_stay_above(g: Seq<Seq<char>>, w: int, h: int, p: Seq<(usize, usize)>, dy: int, ch: char)
    requires
        is_grid(g, w, h),
        w > 0,
        h > 0,
        are_places(p, w, h),
    ensures
        same_below(with_stars(g, h, p, dy, ch), g, w, h),
    decreases p.len(),
{
    if p.len() > 0 {
        stars_stay_above(g, w, h, p.drop_last(), dy, ch);
        assert(p.last().0 < w);
        vstd::arithmetic::div_mod::lemma_mod_bound(p.last().1 + dy, h);
    }
}

proof fn flame_stays_above(
    g: Seq<Seq<char>>,
    w: int,
    h: int,
    base: int,
    center: int,
    n: int,
    tick: u64,
)
    requires
        is_grid(g, w, h),
        w > 0,
        h > 0,
    ensures
        same_below(with_flame(g, w, h, base, center, n, tick), g, w, h),
    decreases n,
{
    if n > 0 {
        flame_stays_above(g, w, h, base, center, n - 1, tick);
    }
}

proof fn smoke_stays_above(
    g: Seq<Seq<char>>,
    w: int,
    h: int,
    center: int,
    steps: Seq<i32>,
    tick: u64,
)
    requires
        is_grid(g, w, h),
        w > 0,
        h > 0,
    ensures
        same_below(with_smoke(g, w, h, center, steps, tick), g, w, h),
    decreases steps.len(),
{
    if steps.len() > 0 {
        smoke_stays_above(g, w, h, center, steps.drop_last(), tick);
    }
}

/// Whatever is drawn, the scene has its height and its width, and the ground stays as it is.
pub proof fn ground_stays(kind: ActionKind, w: int, h: int, f: Flight, c: Chances, tick: u64)
    requires
        w > 0,
        h > 2,
        c.fit(w, h),
    ensures
        same_below(scene(kind, w, h, f, c, tick), landscape(w, h), w, h),
{
    let l = landscape(w, h);
    let a = with_stars(l, h, c.far@, drift(f.shifts.0, 10, tick), '·');
    stars_stay_above(l, w, h, c.far@, drift(f.shifts.0, 10, tick), '·');
    let b = with_stars(a, h, c.middle@, drift(f.shifts.1, 6, tick), '˙');
    stars_stay_above(a, w, h, c.middle@, drift(f.shifts.1, 6, tick), '˙');
    let s = with_stars(b, h, c.near@, drift(f.shifts.2, 4, tick), '·');
    stars_stay_above(b, w, h, c.near@, drift(f.shifts.2, 4, tick), '·');
    assert(s == sky(w, h, f, c, tick));
    let left = left_of(w, f);
    let center = center_of(w, f);
    let rocket = with_rocket(s, w, h, f.top as int, left);
    assert forall|y: int| ground_of(h) <= y < h implies #[trigger] rocket[y] == s[y] by {
        assert(rocket[y] =~= s[y]);
    }
    let flown = with_flame(rocket, w, h, f.top + 11, center, f.flame as int, tick);
    flame_stays_above(rocket, w, h, f.top + 11, center, f.flame as int, tick);
    smoke_stays_above(flown, w, h, center, c.steps@, tick);
}

fn join_rows(g: &Vec<Vec<char>>) -> (r: String)
    ensures
        r@ == text::joined(cells(g@), "\n"@),
{
    let ghost gv = cells(g@);
    let mut rows: Vec<String> = Vec::new();
    let mut i: usize = 0;
    assert(rows.deep_view() == gv.take(0));
    while i < g.len()
        invariant
            i <= g@.len(),
            gv == cells(g@),
            rows.deep_view() == gv.take(i as int),
        decreases g@.len() - i,
    {
        assert(gv[i as int] == g@[i as int]@);
        text::push_text(&mut rows, text::text_of(g[i].as_slice()));
        assert(gv.take(i + 1) == gv.take(i as int).push(gv[i as int]));
        i += 1;
    }
    assert(gv.take(gv.len() as int) == gv);
    text::join(&rows, "\n")
}

/// Draws the scene with what chance gave.
pub fn compose_scene(kind: ActionKind, w: u16, h: u16, f: Flight, c: &Chances, tick: u64) -> (r:
    String)
    requires
        c.fit(w as int, h as int),
    ensures
        r@ == scene_text(kind, w as int, h as int, f, *c, tick),
{
    if w == 0 || h == 0 {
        return String::new();
    }
    let mut g = draw_landscape(w, h);
    assert(is_grid(cells(g@), w as int, h as int));
    draw_stars(&mut g, w, h, &c.far, layer_drift(f.shifts.0, 10, tick), '·');
    draw_stars(&mut g, w, h, &c.middle, layer_drift(f.shifts.1, 6, tick), '˙');
    draw_stars(&mut g, w, h, &c.near, layer_drift(f.shifts.2, 4, tick), '·');
    let ground: i64 = if h > 2 {
        h as i64 - 2
    } else {
        0
    };
    let center: i64 = (w / 2) as i64 + f.wobble as i64;
    let room: i64 = if w > 8 {
        w as i64 - 8
    } else {
        0
    };
    let left: i64 = if center - 4 < 0 {
        0
    } else if center - 4 > room {
        room
    } else {
        center - 4
    };
    let top: i64 = f.top as i64;
    let base: i64 = top + 11;
    let mut g = draw_rocket(&g, w, h, top, left);
    draw_flame(&mut g, w, h, base, center, f.flame, tick);
    match kind {
        ActionKind::Starting => {
            if base + 2 >= ground {
                draw_smoke(&mut g, w, h, center, &c.steps, tick);
            }
        },
        ActionKind::Stopping => {
            if base + 1 >= ground {
                draw_dust(&mut g, w, h, left, f.spread, tick);
            }
        },
    }
    join_rows(&g)
}

/// The seed of the puffs of smoke.
pub open spec fn smoke_seed(tick: u64) -> u64 {
    tick.wrapping_add(0xA115A10CE)
}

/// What was drawn for a scene: as many stars and puffs as it asks for, all of them within it, each
/// layer of stars and the smoke from a seed of its own.
pub open spec fn are_chances(c: Chances, w: int, h: int, f: Flight, tick: u64) -> bool {
    &&& c.fit(w, h)
    &&& c.far@.len() == star_count(w, h, 22)
    &&& c.middle@.len() == star_count(w, h, 34)
    &&& c.near@.len() == star_count(w, h, 52)
    &&& c.steps@.len() == f.puffs
    &&& drawn_from(0x51E8, place_draws(c.far@, w, h))
    &&& drawn_from(0x51E4, place_draws(c.middle@, w, h))
    &&& drawn_from(0x51E2, place_draws(c.near@, w, h))
    &&& drawn_from(smoke_seed(tick), step_draws(c.steps@))
}

/// Draws the stars and the puffs of a scene.
pub fn draw_chances(w: u16, h: u16, f: Flight, tick: u64) -> (r: Chances)
    requires
        w > 0,
        h > 0,
    ensures
        are_chances(r, w as int, h as int, f, tick),
{
    Chances {
        far: draw_places(0x51E8, count_stars(w, h, 22), w, h),
        middle: draw_places(0x51E4, count_stars(w, h, 34), w, h),
        near: draw_places(0x51E2, count_stars(w, h, 52), w, h),
        steps: draw_steps(tick.wrapping_add(0xA115A10CE), f.puffs as usize),
    }
}

/// Draws the scene: the stars and the smoke are where chance puts them.
pub fn render_rocket_scene_vertical(kind: ActionKind, w: u16, h: u16, f: Flight, tick: u64) -> (r:
    String)
    ensures
        w == 0 || h == 0 ==> r@ == Seq::<char>::empty(),
        w > 0 && h > 0 ==> exists|c: Chances| #[trigger]
            are_chances(c, w as int, h as int, f, tick) && r@ == scene_text(
                kind,
                w as int,
                h as int,
                f,
                c,
                tick,
            ),
{
    if w == 0 || h == 0 {
        return String::new();
    }
    let c = draw_chances(w, h, f, tick);
    compose_scene(kind, w, h, f, &c, tick)
}

} // verus!
