//! The rows that a list shows, and in what order.

use crate::text;
use vstd::prelude::*;

verus! {

/// What a row is sorted by.
pub enum SortValue {
    Num(i64),
    Text(String),
    /// By the first text, and where that is the same by the second.
    Pair(String, String),
    /// No text comes before any text.
    Maybe(Option<String>),
}

#[verifier::ext_equal]
pub enum SortValueView {
    Num(i64),
    Text(Seq<char>),
    Pair(Seq<char>, Seq<char>),
    Maybe(Option<Seq<char>>),
}

impl View for SortValue {
    type V = SortValueView;

    open spec fn view(&self) -> SortValueView {
        match self {
            SortValue::Num(n) => SortValueView::Num(*n),
            SortValue::Text(s) => SortValueView::Text(s@),
            SortValue::Pair(s, t) => SortValueView::Pair(s@, t@),
            SortValue::Maybe(s) => SortValueView::Maybe(s.deep_view()),
        }
    }
}

impl DeepView for SortValue {
    type V = SortValueView;

    open spec fn deep_view(&self) -> SortValueView {
        self@
    }
}

/// The order of the kinds of values.
pub open spec fn kind_rank(a: SortValueView) -> int {
    match a {
        SortValueView::Num(_) => 0,
        SortValueView::Text(_) => 1,
        SortValueView::Pair(_, _) => 2,
        SortValueView::Maybe(_) => 3,
    }
}

/// `a` comes before `b` in ascending order.
pub open spec fn value_less(a: SortValueView, b: SortValueView) -> bool {
    match (a, b) {
        (SortValueView::Num(x), SortValueView::Num(y)) => x < y,
        (SortValueView::Text(x), SortValueView::Text(y)) => text::text_less(x, y),
        (SortValueView::Pair(x, u), SortValueView::Pair(y, v)) => text::text_less(x, y) || (x == y
            && text::text_less(u, v)),
        (SortValueView::Maybe(x), SortValueView::Maybe(y)) => match (x, y) {
            (None, Some(_)) => true,
            (Some(s), Some(t)) => text::text_less(s, t),
            _ => false,
        },
        _ => kind_rank(a) < kind_rank(b),
    }
}

/// `a` comes before `b` in the order that is asked for.
pub open spec fn comes_before(a: SortValueView, b: SortValueView, asc: bool) -> bool {
    if asc {
        value_less(a, b)
    } else {
        value_less(b, a)
    }
}

proof fn value_less_strict(a: SortValueView)
    ensures
        !value_less(a, a),
{
    match a {
        SortValueView::Num(_) => {},
        SortValueView::Text(s) => text::less_is_strict(s),
        SortValueView::Pair(s, t) => {
            text::less_is_strict(s);
            text::less_is_strict(t);
        },
        SortValueView::Maybe(m) => match m {
            Some(s) => text::less_is_strict(s),
            None => {},
        },
    }
}

proof fn value_less_transitive(a: SortValueView, b: SortValueView, c: SortValueView)
    requires
        value_less(a, b),
        value_less(b, c),
    ensures
        value_less(a, c),
{
    match (a, b, c) {
        (SortValueView::Text(x), SortValueView::Text(y), SortValueView::Text(z)) => {
            text::less_is_transitive(x, y, z);
        },
        (SortValueView::Pair(x, u), SortValueView::Pair(y, v), SortValueView::Pair(z, w)) => {
            if text::text_less(x, y) && text::text_less(y, z) {
                text::less_is_transitive(x, y, z);
            } else if x == y && y == z {
                text::less_is_transitive(u, v, w);
            }
        },
        (SortValueView::Maybe(x), SortValueView::Maybe(y), SortValueView::Maybe(z)) => {
            match (x, y, z) {
                (Some(s), Some(t), Some(u)) => text::less_is_transitive(s, t, u),
                _ => {},
            }
        },
        _ => {},
    }
}

proof fn value_less_total(a: SortValueView, b: SortValueView)
    ensures
        value_less(a, b) || value_less(b, a) || a == b,
{
    match (a, b) {
        (SortValueView::Text(x), SortValueView::Text(y)) => text::less_is_total(x, y),
        (SortValueView::Pair(x, u), SortValueView::Pair(y, v)) => {
            text::less_is_total(x, y);
            text::less_is_total(u, v);
        },
        (SortValueView::Maybe(x), SortValueView::Maybe(y)) => {
            match (x, y) {
                (Some(s), Some(t)) => text::less_is_total(s, t),
                _ => {},
            }
        },
        _ => {},
    }
}

proof fn before_transitive(a: SortValueView, b: SortValueView, c: SortValueView, asc: bool)
    requires
        comes_before(a, b, asc),
        comes_before(b, c, asc),
    ensures
        comes_before(a, c, asc),
{
    if asc {
        value_less_transitive(a, b, c);
    } else {
        value_less_transitive(c, b, a);
    }
}

fn is_less(a: &SortValue, b: &SortValue) -> (r: bool)
    ensures
        r == value_less(a@, b@),
{
    match a {
        SortValue::Num(x) => match b {
            SortValue::Num(y) => *x < *y,
            _ => true,
        },
        SortValue::Text(x) => match b {
            SortValue::Num(_) => false,
            SortValue::Text(y) => text::less(x.as_str(), y.as_str()),
            _ => true,
        },
        SortValue::Pair(x, u) => match b {
            SortValue::Pair(y, v) => text::less(x.as_str(), y.as_str()) || (text::same(
                x.as_str(),
                y.as_str(),
            ) && text::less(u.as_str(), v.as_str())),
            SortValue::Maybe(_) => true,
            _ => false,
        },
        SortValue::Maybe(x) => match b {
            SortValue::Maybe(y) => match (x, y) {
                (None, Some(_)) => true,
                (Some(s), Some(t)) => text::less(s.as_str(), t.as_str()),
                _ => false,
            },
            _ => false,
        },
    }
}

/// A row put behind the rows that it does not come before.
pub open spec fn placed(l: Seq<int>, keys: Seq<SortValueView>, asc: bool, x: int) -> Seq<int>
    decreases l.len(),
{
    if l.len() > 0 && comes_before(keys[x], keys[l.last()], asc) {
        placed(l.drop_last(), keys, asc, x).push(l.last())
    } else {
        l.push(x)
    }
}

/// The kept ones of the first `n` rows, in order.
pub open spec fn arranged_first(
    keep: Seq<bool>,
    keys: Seq<SortValueView>,
    asc: bool,
    n: int,
) -> Seq<int>
    decreases n,
{
    if n <= 0 {
        Seq::empty()
    } else {
        let before = arranged_first(keep, keys, asc, n - 1);
        if keep[n - 1] {
            placed(before, keys, asc, n - 1)
        } else {
            before
        }
    }
}

/// The rows that are kept, in order. Rows that are equal in it stay as they were.
pub open spec fn arranged(keep: Seq<bool>, keys: Seq<SortValueView>, asc: bool) -> Seq<int> {
    arranged_first(keep, keys, asc, keep.len() as int)
}

/// The positions, as integers.
pub open spec fn positions(s: Seq<usize>) -> Seq<int> {
    Seq::new(s.len(), |i: int| s[i] as int)
}

proof fn placed_at(l: Seq<int>, keys: Seq<SortValueView>, asc: bool, x: int, j: int)
    requires
        0 <= j <= l.len(),
        j > 0 ==> !comes_before(keys[x], keys[l[j - 1]], asc),
        forall|k: int| j <= k < l.len() ==> comes_before(keys[x], keys[#[trigger] l[k]], asc),
    ensures
        placed(l, keys, asc, x) == l.insert(j, x),
    decreases l.len(),
{
    if l.len() == j {
        assert(l.insert(j, x) == l.push(x));
    } else {
        assert(comes_before(keys[x], keys[l[l.len() - 1]], asc));
        placed_at(l.drop_last(), keys, asc, x, j);
        assert(l.drop_last().insert(j, x).push(l.last()) == l.insert(j, x));
    }
}

proof fn arranged_bounds(keep: Seq<bool>, keys: Seq<SortValueView>, asc: bool, n: int)
    requires
        0 <= n,
    ensures
        forall|i: int|
            0 <= i < arranged_first(keep, keys, asc, n).len() ==> 0
                <= #[trigger] arranged_first(keep, keys, asc, n)[i] < n,
    decreases n,
{
    if n > 0 {
        arranged_bounds(keep, keys, asc, n - 1);
        placed_members(arranged_first(keep, keys, asc, n - 1), keys, asc, n - 1);
        let l = arranged_first(keep, keys, asc, n - 1);
        let r = arranged_first(keep, keys, asc, n);
        assert forall|i: int| 0 <= i < r.len() implies 0 <= #[trigger] r[i] < n by {
            assert(r.contains(r[i]));
            if keep[n - 1] && r[i] != n - 1 {
                assert(l.contains(r[i]));
            }
        }
    }
}

proof fn placed_members(l: Seq<int>, keys: Seq<SortValueView>, asc: bool, x: int)
    ensures
        placed(l, keys, asc, x).len() == l.len() + 1,
        forall|y: int| #[trigger]
            placed(l, keys, asc, x).contains(y) <==> l.contains(y) || y == x,
    decreases l.len(),
{
    let r = placed(l, keys, asc, x);
    if l.len() > 0 && comes_before(keys[x], keys[l.last()], asc) {
        let m = l.drop_last();
        let s = placed(m, keys, asc, x);
        placed_members(m, keys, asc, x);
        assert forall|y: int| #[trigger] r.contains(y) <==> l.contains(y) || y == x by {
            if r.contains(y) {
                let k = choose|k: int| 0 <= k < r.len() && r[k] == y;
                if k < s.len() {
                    assert(s[k] == y);
                    assert(s.contains(y));
                    if m.contains(y) {
                        let q = choose|q: int| 0 <= q < m.len() && m[q] == y;
                        assert(l[q] == y);
                    }
                } else {
                    assert(l[l.len() - 1] == y);
                }
            }
            if l.contains(y) {
                let k = choose|k: int| 0 <= k < l.len() && l[k] == y;
                if k < m.len() {
                    assert(m[k] == y);
                    assert(s.contains(y));
                    let q = choose|q: int| 0 <= q < s.len() && s[q] == y;
                    assert(r[q] == y);
                } else {
                    assert(r[r.len() - 1] == y);
                }
            }
            if y == x {
                assert(s.contains(y));
                let q = choose|q: int| 0 <= q < s.len() && s[q] == y;
                assert(r[q] == y);
            }
        }
    } else {
        assert forall|y: int| #[trigger] r.contains(y) <==> l.contains(y) || y == x by {
            if r.contains(y) {
                let k = choose|k: int| 0 <= k < r.len() && r[k] == y;
                if k < l.len() {
                    assert(l[k] == y);
                }
            }
            if l.contains(y) {
                let k = choose|k: int| 0 <= k < l.len() && l[k] == y;
                assert(r[k] == y);
            }
            if y == x {
                assert(r[l.len() as int] == y);
            }
        }
    }
}

/// The rows that are kept, in order.
pub fn arrange(keep: &Vec<bool>, keys: &Vec<SortValue>, asc: bool) -> (r: Vec<usize>)
    requires
        keep@.len() == keys@.len(),
    ensures
        positions(r@) == arranged(keep@, keys.deep_view(), asc),
        forall|i: int| 0 <= i < r@.len() ==> #[trigger] r@[i] < keep@.len(),
{
    let ghost kv = keys.deep_view();
    let mut out: Vec<usize> = Vec::new();
    let mut n: usize = 0;
    assert(positions(out@) == Seq::<int>::empty());
    while n < keep.len()
        invariant
            n <= keep@.len() == keys@.len(),
            kv == keys.deep_view(),
            positions(out@) == arranged_first(keep@, kv, asc, n as int),
            forall|i: int| 0 <= i < out@.len() ==> #[trigger] out@[i] < n,
        decreases keep@.len() - n,
    {
        if keep[n] {
            let ghost l = positions(out@);
            let mut j: usize = out.len();
            let mut more: bool = true;
            while j > 0 && more
                invariant
                    n < keep@.len() == keys@.len(),
                    j <= out@.len(),
                    kv == keys.deep_view(),
                    l == positions(out@),
                    forall|i: int| 0 <= i < out@.len() ==> #[trigger] out@[i] < n,
                    forall|k: int|
                        j <= k < l.len() ==> comes_before(
                            kv[n as int],
                            kv[#[trigger] l[k]],
                            asc,
                        ),
                    !more ==> j > 0 && !comes_before(kv[n as int], kv[l[j - 1]], asc),
                decreases j, (if more {
                        1int
                    } else {
                        0int
                    }),
            {
                let o: usize = out[j - 1];
                assert(l[j - 1] == o);
                assert(kv[o as int] == keys@[o as int]@ && kv[n as int] == keys@[n as int]@);
                let first = if asc {
                    is_less(&keys[n], &keys[o])
                } else {
                    is_less(&keys[o], &keys[n])
                };
                if first {
                    j -= 1;
                } else {
                    more = false;
                }
            }
            proof {
                placed_at(l, kv, asc, n as int, j as int);
            }
            out.insert(j, n);
            assert(positions(out@) == l.insert(j as int, n as int));
            assert forall|i: int| 0 <= i < out@.len() implies #[trigger] out@[i] < n + 1 by {
                if i < j {
                    assert(out@[i] == l[i]);
                } else if i > j {
                    assert(out@[i] == l[i - 1]);
                }
            }
        }
        n += 1;
    }
    out
}

/// Nothing stands before a row that should precede it, and equal rows stand as they came.
pub open spec fn is_arranged(l: Seq<int>, keys: Seq<SortValueView>, asc: bool) -> bool {
    forall|i: int, j: int|
        0 <= i < j < l.len() ==> comes_before(keys[#[trigger] l[i]], keys[#[trigger] l[j]], asc)
            || (keys[l[i]] == keys[l[j]] && l[i] < l[j])
}

proof fn placed_keeps_order(l: Seq<int>, keys: Seq<SortValueView>, asc: bool, x: int)
    requires
        is_arranged(l, keys, asc),
        forall|i: int| 0 <= i < l.len() ==> #[trigger] l[i] < x,
    ensures
        is_arranged(placed(l, keys, asc, x), keys, asc),
    decreases l.len(),
{
    let r = placed(l, keys, asc, x);
    if l.len() > 0 && comes_before(keys[x], keys[l.last()], asc) {
        let m = l.drop_last();
        assert forall|i: int, j: int| 0 <= i < j < m.len() implies comes_before(
            keys[#[trigger] m[i]],
            keys[#[trigger] m[j]],
            asc,
        ) || (keys[m[i]] == keys[m[j]] && m[i] < m[j]) by {
            assert(m[i] == l[i] && m[j] == l[j]);
        }
        assert forall|i: int| 0 <= i < m.len() implies #[trigger] m[i] < x by {
            assert(m[i] == l[i]);
        }
        placed_keeps_order(m, keys, asc, x);
        placed_members(m, keys, asc, x);
        let s = placed(m, keys, asc, x);
        assert forall|i: int, j: int| 0 <= i < j < r.len() implies comes_before(
            keys[#[trigger] r[i]],
            keys[#[trigger] r[j]],
            asc,
        ) || (keys[r[i]] == keys[r[j]] && r[i] < r[j]) by {
            assert(r[i] == s[i]);
            if j < s.len() {
                assert(r[j] == s[j]);
            } else {
                assert(r[j] == l.last());
                assert(s.contains(s[i]));
                if s[i] != x {
                    let q = choose|q: int| 0 <= q < m.len() && m[q] == s[i];
                    assert(l[q] == s[i]);
                    assert(l[l.len() - 1] == r[j]);
                }
            }
        }
    } else {
        assert forall|i: int, j: int| 0 <= i < j < r.len() implies comes_before(
            keys[#[trigger] r[i]],
            keys[#[trigger] r[j]],
            asc,
        ) || (keys[r[i]] == keys[r[j]] && r[i] < r[j]) by {
            assert(r[i] == l[i]);
            if j < l.len() {
                assert(r[j] == l[j]);
            } else {
                assert(r[j] == x);
                let last = l[l.len() - 1];
                value_less_total(keys[last], keys[x]);
                if i < l.len() - 1 {
                    assert(comes_before(keys[l[i]], keys[last], asc) || keys[l[i]] == keys[last]);
                    if comes_before(keys[l[i]], keys[last], asc) && comes_before(
                        keys[last],
                        keys[x],
                        asc,
                    ) {
                        before_transitive(keys[l[i]], keys[last], keys[x], asc);
                    }
                }
            }
        }
    }
}

proof fn arranged_first_is_sorted(keep: Seq<bool>, keys: Seq<SortValueView>, asc: bool, n: int)
    requires
        0 <= n <= keep.len(),
    ensures
        is_arranged(arranged_first(keep, keys, asc, n), keys, asc),
        forall|k: int| #[trigger]
            arranged_first(keep, keys, asc, n).contains(k) <==> 0 <= k < n && keep[k],
    decreases n,
{
    if n > 0 {
        let l = arranged_first(keep, keys, asc, n - 1);
        arranged_first_is_sorted(keep, keys, asc, n - 1);
        arranged_bounds(keep, keys, asc, n - 1);
        if keep[n - 1] {
            placed_keeps_order(l, keys, asc, n - 1);
            placed_members(l, keys, asc, n - 1);
        }
    }
}

/// The rows that a list shows are exactly those that are kept, each once, sorted, and rows that
/// are equal in the order stand as they came.
pub proof fn arranged_is_sorted(keep: Seq<bool>, keys: Seq<SortValueView>, asc: bool)
    ensures
        is_arranged(arranged(keep, keys, asc), keys, asc),
        arranged(keep, keys, asc).no_duplicates(),
        forall|k: int| #[trigger]
            arranged(keep, keys, asc).contains(k) <==> 0 <= k < keep.len() && keep[k],
{
    let r = arranged(keep, keys, asc);
    arranged_first_is_sorted(keep, keys, asc, keep.len() as int);
    assert forall|i: int, j: int| 0 <= i < r.len() && 0 <= j < r.len() && i != j implies r[i]
        != r[j] by {
        if i < j {
            value_less_strict(keys[r[i]]);
            assert(comes_before(keys[r[i]], keys[r[j]], asc) || r[i] < r[j]);
        } else {
            value_less_strict(keys[r[j]]);
            assert(comes_before(keys[r[j]], keys[r[i]], asc) || r[j] < r[i]);
        }
    }
}

/// Every row that is shown is one of the rows.
pub proof fn arranged_in_range(keep: Seq<bool>, keys: Seq<SortValueView>, asc: bool)
    ensures
        forall|i: int|
            0 <= i < arranged(keep, keys, asc).len() ==> 0 <= #[trigger] arranged(
                keep,
                keys,
                asc,
            )[i] < keep.len(),
{
    arranged_bounds(keep, keys, asc, keep.len() as int);
}

} // verus!
