//! Grids of cells, row by row.

use vstd::prelude::*;

verus! {

pub open spec fn cells<T>(g: Seq<Vec<T>>) -> Seq<Seq<T>> {
    g.map_values(|row: Vec<T>| row@)
}

/// As many rows as it is high, each as long as it is wide.
pub open spec fn is_grid<T>(g: Seq<Seq<T>>, w: int, h: int) -> bool {
    &&& g.len() == h
    &&& forall|y: int| 0 <= y < h ==> (#[trigger] g[y]).len() == w
}

/// A grid with one cell changed.
pub open spec fn put<T>(g: Seq<Seq<T>>, y: int, x: int, v: T) -> Seq<Seq<T>> {
    g.update(y, g[y].update(x, v))
}

/// A grid of one value.
pub open spec fn filled<T>(v: T, w: int, h: int) -> Seq<Seq<T>> {
    Seq::new(h as nat, |y: int| Seq::new(w as nat, |x: int| v))
}

/// A changed cell leaves the grid its size, and every other cell as it was.
pub proof fn put_changes_one_cell<T>(g: Seq<Seq<T>>, w: int, h: int, y: int, x: int, v: T)
    requires
        is_grid(g, w, h),
        0 <= y < h,
        0 <= x < w,
    ensures
        is_grid(put(g, y, x, v), w, h),
        put(g, y, x, v)[y][x] == v,
        forall|b: int, a: int|
            0 <= b < h && 0 <= a < w && (b != y || a != x) ==> #[trigger] put(g, y, x, v)[b][a]
                == g[b][a],
{
}

pub fn set_cell<T: Copy>(g: &mut Vec<Vec<T>>, y: usize, x: usize, v: T)
    requires
        y < old(g)@.len(),
        x < old(g)@[y as int]@.len(),
    ensures
        cells(final(g)@) == put(cells(old(g)@), y as int, x as int, v),
        final(g)@.len() == old(g)@.len(),
        forall|k: int|
            0 <= k < old(g)@.len() ==> (#[trigger] final(g)@[k])@.len() == old(g)@[k]@.len(),
{
    let ghost before = cells(g@);
    g[y][x] = v;
    assert(cells(g@) == put(before, y as int, x as int, v));
}

/// A grid of one value.
pub fn fill<T: Copy>(v: T, w: usize, h: usize) -> (r: Vec<Vec<T>>)
    ensures
        cells(r@) == filled(v, w as int, h as int),
{
    let mut g: Vec<Vec<T>> = Vec::new();
    let mut y: usize = 0;
    while y < h
        invariant
            y <= h,
            cells(g@) == filled(v, w as int, y as int),
        decreases h - y,
    {
        let mut row: Vec<T> = Vec::new();
        let mut x: usize = 0;
        while x < w
            invariant
                x <= w,
                row@ == Seq::new(x as nat, |k: int| v),
            decreases w - x,
        {
            row.push(v);
            x += 1;
        }
        let ghost before = cells(g@);
        g.push(row);
        assert(cells(g@) == before.push(row@));
        assert(filled(v, w as int, y + 1) == filled(v, w as int, y as int).push(row@));
        y += 1;
    }
    g
}

} // verus!
