//! Small helpers of the containers tab.

use crate::text::{chars_of, slice_of, suffix_of};
use crate::theme::{Color, Style};
use vstd::prelude::*;

verus! {

/// The style of every other row.
pub fn alt_row_style() -> (r: Style)
    ensures
        r == (Style { fg: None, bg: Some(Color::Rgb(16, 18, 20)), bold: false, dim: false }),
{
    Style { fg: None, bg: Some(Color::Rgb(16, 18, 20)), bold: false, dim: false }
}

/// A text cut in its middle: dots stand for what was taken out, and a start and an end are kept.
pub open spec fn middle_cut(s: Seq<char>, max: int) -> Seq<char> {
    if s.len() <= max {
        s
    } else if max <= 3 {
        "..."@
    } else {
        let keep = max - 3;
        let head = keep / 2;
        let tail = keep - head;
        s.take(head) + "..."@ + s.skip(s.len() - tail)
    }
}

/// Cuts a text in its middle, keeping a start and an end.
pub fn truncate_middle(s: &str, max: usize) -> (r: String)
    ensures
        r@ == middle_cut(s@, max as int),
{
    let v = chars_of(s);
    if v.len() <= max {
        return s.to_owned();
    }
    if max <= 3 {
        return "...".to_owned();
    }
    let keep: usize = max - 3;
    let head: usize = keep / 2;
    let tail: usize = keep - head;
    let mut out = slice_of(&v, 0, head);
    out.append("...");
    out.append(suffix_of(&v, v.len() - tail).as_str());
    out
}

/// A text that is cut to `max` characters, where dots fit, has exactly that many.
pub proof fn middle_cut_fits(s: Seq<char>, max: int)
    requires
        max >= 3,
    ensures
        middle_cut(s, max).len() <= max,
        s.len() > max ==> middle_cut(s, max).len() == max,
        s.len() <= max ==> middle_cut(s, max) == s,
{
    reveal_strlit("...");
}

} // verus!
