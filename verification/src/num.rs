//! Arithmetic that stops at a bound.

use vstd::prelude::*;

verus! {

/// The number nearest to `n` from `lo` to `hi`.
pub open spec fn clamped(n: int, lo: int, hi: int) -> int {
    if n < lo {
        lo
    } else if n > hi {
        hi
    } else {
        n
    }
}

/// The difference of two numbers, or 0 where it is less than that.
pub open spec fn less_by(a: int, b: int) -> int {
    if a > b {
        a - b
    } else {
        0
    }
}

pub open spec fn smaller(a: int, b: int) -> int {
    if a < b {
        a
    } else {
        b
    }
}

/// A number cut at the largest coordinate there is.
pub open spec fn capped(n: int) -> int {
    if n > u16::MAX {
        u16::MAX as int
    } else {
        n
    }
}

} // verus!
