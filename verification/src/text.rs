//! Text: what the dashboard needs of strings, stated over sequences of characters.

use vstd::prelude::*;

verus! {

/// `String::push`: the character goes behind the others.
pub assume_specification[ String::push ](s: &mut String, c: char)
    ensures
        final(s)@ == old(s)@.push(c),
;

/// What `str::to_lowercase` returns for a text.
pub uninterp spec fn lowercase(s: Seq<char>) -> Seq<char>;

/// `str::to_lowercase`: the result depends on the text alone (no locale is consulted).
#[verifier::external_body]
pub(crate) fn lower(s: &str) -> (r: String)
    ensures
        r@ == lowercase(s@),
{
    s.to_lowercase()
}

/// The characters with Unicode's `White_Space` property.
pub open spec fn is_white(c: char) -> bool {
    ||| '\u{9}' <= c <= '\u{d}'
    ||| c == ' '
    ||| c == '\u{85}'
    ||| c == '\u{a0}'
    ||| c == '\u{1680}'
    ||| '\u{2000}' <= c <= '\u{200a}'
    ||| c == '\u{2028}'
    ||| c == '\u{2029}'
    ||| c == '\u{202f}'
    ||| c == '\u{205f}'
    ||| c == '\u{3000}'
}

pub fn is_whitespace(c: char) -> (r: bool)
    ensures
        r == is_white(c),
{
    ('\u{9}' <= c && c <= '\u{d}') || c == ' ' || c == '\u{85}' || c == '\u{a0}' || c == '\u{1680}'
        || ('\u{2000}' <= c && c <= '\u{200a}') || c == '\u{2028}' || c == '\u{2029}' || c
        == '\u{202f}' || c == '\u{205f}' || c == '\u{3000}'
}

/// The characters of a text, as a vector.
pub fn chars_of(s: &str) -> (r: Vec<char>)
    ensures
        r@ == s@,
{
    let mut v: Vec<char> = Vec::new();
    for c in it: s.chars()
        invariant
            v@ == it.seq().take(it.index() as int),
            it.seq() == s@,
    {
        v.push(c);
    }
    v
}

/// The text made of some characters.
pub fn text_of(v: &[char]) -> (r: String)
    ensures
        r@ == v@,
{
    let mut s: String = String::new();
    let mut i: usize = 0;
    while i < v.len()
        invariant
            i <= v@.len(),
            s@ == v@.take(i as int),
        decreases v@.len() - i,
    {
        s.push(v[i]);
        i += 1;
    }
    assert(v@.take(v@.len() as int) == v@);
    s
}

/// Do two texts hold the same characters?
pub fn same(a: &str, b: &str) -> (r: bool)
    ensures
        r == (a@ == b@),
{
    a.to_owned() == b.to_owned()
}

pub open spec fn drop_white_start(s: Seq<char>) -> Seq<char>
    decreases s.len(),
{
    if s.len() > 0 && is_white(s.first()) {
        drop_white_start(s.drop_first())
    } else {
        s
    }
}

pub open spec fn drop_white_end(s: Seq<char>) -> Seq<char>
    decreases s.len(),
{
    if s.len() > 0 && is_white(s.last()) {
        drop_white_end(s.drop_last())
    } else {
        s
    }
}

/// A text without the white space at either end.
pub open spec fn trimmed(s: Seq<char>) -> Seq<char> {
    drop_white_end(drop_white_start(s))
}

pub fn trim_start(s: &str) -> (r: String)
    ensures
        r@ == drop_white_start(s@),
{
    let v = chars_of(s);
    let mut i: usize = 0;
    assert(s@.skip(0) == s@);
    while i < v.len() && is_whitespace(v[i])
        invariant
            i <= v@.len(),
            v@ == s@,
            drop_white_start(s@.skip(i as int)) == drop_white_start(s@),
        decreases v@.len() - i,
    {
        assert(s@.skip(i as int).drop_first() == s@.skip(i + 1));
        i += 1;
    }
    suffix_of(&v, i)
}

/// The text of the characters from the `i`-th on.
pub fn suffix_of(v: &Vec<char>, i: usize) -> (r: String)
    requires
        i <= v@.len(),
    ensures
        r@ == v@.skip(i as int),
{
    slice_of(v, i, v.len())
}

/// The text of the characters from the `i`-th up to, not including, the `j`-th.
pub fn slice_of(v: &Vec<char>, i: usize, j: usize) -> (r: String)
    requires
        i <= j <= v@.len(),
    ensures
        r@ == v@.subrange(i as int, j as int),
{
    let mut s: String = String::new();
    let mut k: usize = i;
    while k < j
        invariant
            i <= k <= j <= v@.len(),
            s@ == v@.subrange(i as int, k as int),
        decreases j - k,
    {
        s.push(v[k]);
        k += 1;
    }
    s
}

pub fn trim_end(s: &str) -> (r: String)
    ensures
        r@ == drop_white_end(s@),
{
    let v = chars_of(s);
    let mut j: usize = v.len();
    assert(s@.take(j as int) == s@);
    while j > 0 && is_whitespace(v[j - 1])
        invariant
            j <= v@.len(),
            v@ == s@,
            drop_white_end(s@.take(j as int)) == drop_white_end(s@),
        decreases j,
    {
        assert(s@.take(j as int).drop_last() == s@.take(j - 1));
        j -= 1;
    }
    slice_of(&v, 0, j)
}

pub fn trim(s: &str) -> (r: String)
    ensures
        r@ == trimmed(s@),
{
    let t = trim_start(s);
    trim_end(t.as_str())
}

/// `needle` stands in `hay` at position `i`.
pub open spec fn occurs_at(hay: Seq<char>, needle: Seq<char>, i: int) -> bool {
    0 <= i && i + needle.len() <= hay.len() && hay.subrange(i, i + needle.len()) == needle
}

pub open spec fn holds(hay: Seq<char>, needle: Seq<char>) -> bool {
    exists|i: int| #[trigger] occurs_at(hay, needle, i)
}

fn occurs_here(hay: &Vec<char>, needle: &Vec<char>, i: usize) -> (r: bool)
    requires
        i + needle@.len() <= hay@.len(),
    ensures
        r == occurs_at(hay@, needle@, i as int),
{
    let n: usize = needle.len();
    let top: usize = hay.len();
    let mut k: usize = 0;
    while k < n
        invariant
            k <= n,
            n == needle@.len(),
            top == hay@.len(),
            i + n <= top,
            forall|j: int| 0 <= j < k ==> hay@[i + j] == needle@[j],
        decreases n - k,
    {
        if hay[i + k] != needle[k] {
            assert(hay@.subrange(i as int, i + n)[k as int] != needle@[k as int]);
            return false;
        }
        k += 1;
    }
    assert(hay@.subrange(i as int, i + n) == needle@);
    true
}

/// The first position, from `from` on, at which `needle` stands in `hay`.
pub fn find_from(hay: &Vec<char>, needle: &Vec<char>, from: usize) -> (r: Option<usize>)
    ensures
        match r {
            Some(i) => from <= i && occurs_at(hay@, needle@, i as int) && forall|j: int|
                from <= j < i ==> !occurs_at(hay@, needle@, j),
            None => forall|j: int| from <= j ==> !occurs_at(hay@, needle@, j),
        },
{
    if needle.len() > hay.len() {
        return None;
    }
    let top: usize = hay.len() - needle.len();
    let mut i: usize = from;
    while i <= top
        invariant
            from <= i,
            top == hay@.len() - needle@.len(),
            forall|j: int| from <= j < i ==> !occurs_at(hay@, needle@, j),
        decreases top + 1 - i,
    {
        if occurs_here(hay, needle, i) {
            return Some(i);
        }
        if i == top {
            return None;
        }
        i += 1;
    }
    None
}

pub fn contains(hay: &str, needle: &str) -> (r: bool)
    ensures
        r == holds(hay@, needle@),
{
    let h = chars_of(hay);
    let n = chars_of(needle);
    match find_from(&h, &n, 0) {
        Some(i) => true,
        None => {
            assert forall|i: int| !occurs_at(hay@, needle@, i) by {
                if i >= 0 {
                }
            }
            false
        },
    }
}

pub open spec fn begins(s: Seq<char>, prefix: Seq<char>) -> bool {
    occurs_at(s, prefix, 0)
}

pub open spec fn ends(s: Seq<char>, suffix: Seq<char>) -> bool {
    occurs_at(s, suffix, s.len() - suffix.len())
}

pub fn starts_with(s: &str, prefix: &str) -> (r: bool)
    ensures
        r == begins(s@, prefix@),
{
    let v = chars_of(s);
    let p = chars_of(prefix);
    p.len() <= v.len() && occurs_here(&v, &p, 0)
}

pub fn ends_with(s: &str, suffix: &str) -> (r: bool)
    ensures
        r == ends(s@, suffix@),
{
    let v = chars_of(s);
    let p = chars_of(suffix);
    p.len() <= v.len() && occurs_here(&v, &p, v.len() - p.len())
}

/// The text behind `prefix`, if the text begins with it.
pub fn strip_prefix(s: &str, prefix: &str) -> (r: Option<String>)
    ensures
        match r {
            Some(t) => begins(s@, prefix@) && t@ == s@.skip(prefix@.len() as int),
            None => !begins(s@, prefix@),
        },
{
    let v = chars_of(s);
    let p = chars_of(prefix);
    if p.len() <= v.len() && occurs_here(&v, &p, 0) {
        Some(suffix_of(&v, p.len()))
    } else {
        None
    }
}

/// The parts of a text between the occurrences of a separator.
pub open spec fn parts(s: Seq<char>, sep: char) -> Seq<Seq<char>>
    decreases s.len(),
{
    if s.len() == 0 {
        seq![Seq::empty()]
    } else {
        let before = parts(s.drop_last(), sep);
        if s.last() == sep {
            before.push(Seq::empty())
        } else {
            before.drop_last().push(before.last().push(s.last()))
        }
    }
}

/// There is always a part, if only an empty one.
pub proof fn parts_nonempty(s: Seq<char>, sep: char)
    ensures
        parts(s, sep).len() > 0,
    decreases s.len(),
{
    if s.len() > 0 {
        parts_nonempty(s.drop_last(), sep);
    }
}

pub fn split(s: &str, sep: char) -> (r: Vec<String>)
    ensures
        r.deep_view() == parts(s@, sep),
{
    let v = chars_of(s);
    let mut out: Vec<String> = Vec::new();
    let mut cur: String = String::new();
    let mut i: usize = 0;
    assert(s@.take(0) == Seq::<char>::empty());
    assert(out.deep_view().push(cur@) == parts(s@.take(0), sep));
    while i < v.len()
        invariant
            i <= v@.len(),
            v@ == s@,
            out.deep_view().push(cur@) == parts(s@.take(i as int), sep),
        decreases v@.len() - i,
    {
        let ghost before = parts(s@.take(i as int), sep);
        let ghost done = out.deep_view();
        assert(s@.take(i + 1).drop_last() == s@.take(i as int));
        assert(before.drop_last() == done);
        if v[i] == sep {
            out.push(cur);
            cur = String::new();
            assert(out.deep_view() == before);
        } else {
            cur.push(v[i]);
        }
        i += 1;
    }
    assert(s@.take(s@.len() as int) == s@);
    let ghost done = out.deep_view();
    out.push(cur);
    assert(out.deep_view() == done.push(cur@));
    out
}

/// The members of a list of texts that are not empty.
pub open spec fn nonempty(l: Seq<Seq<char>>) -> Seq<Seq<char>>
    decreases l.len(),
{
    if l.len() == 0 {
        Seq::empty()
    } else if l.last().len() == 0 {
        nonempty(l.drop_last())
    } else {
        nonempty(l.drop_last()).push(l.last())
    }
}

/// The text with each white-space character turned into a blank.
pub open spec fn blanked(s: Seq<char>) -> Seq<char> {
    s.map_values(|c: char| if is_white(c) { ' ' } else { c })
}

/// The words of a text: what stands between runs of white space.
pub open spec fn words(s: Seq<char>) -> Seq<Seq<char>> {
    nonempty(parts(blanked(s), ' '))
}

pub fn split_whitespace(s: &str) -> (r: Vec<String>)
    ensures
        r.deep_view() == words(s@),
{
    let v = chars_of(s);
    let mut out: Vec<String> = Vec::new();
    let mut cur: String = String::new();
    let mut i: usize = 0;
    let ghost b = blanked(s@);
    let ghost mut done: Seq<Seq<char>> = Seq::empty();
    assert(b.take(0) == Seq::<char>::empty());
    assert(done.push(cur@) == parts(b.take(0), ' '));
    assert(out.deep_view() == nonempty(done));
    while i < v.len()
        invariant
            i <= v@.len(),
            v@ == s@,
            b == blanked(s@),
            b.len() == s@.len(),
            done.push(cur@) == parts(b.take(i as int), ' '),
            out.deep_view() == nonempty(done),
        decreases v@.len() - i,
    {
        let ghost before = parts(b.take(i as int), ' ');
        let ghost shown = out.deep_view();
        assert(b.take(i + 1).drop_last() == b.take(i as int));
        assert(before.drop_last() == done);
        if is_whitespace(v[i]) {
            assert(before.drop_last() == done && before.last() == cur@);
            if cur.as_str().is_empty() {
            } else {
                out.push(cur);
                assert(out.deep_view() == shown.push(cur@));
            }
            proof {
                done = before;
            }
            cur = String::new();
        } else {
            cur.push(v[i]);
        }
        i += 1;
    }
    assert(b.take(b.len() as int) == b);
    let ghost all = done.push(cur@);
    assert(all.drop_last() == done);
    if cur.as_str().is_empty() {
    } else {
        let ghost shown = out.deep_view();
        out.push(cur);
        assert(out.deep_view() == shown.push(cur@));
    }
    out
}

/// A text without a carriage return at its end.
pub open spec fn without_return(s: Seq<char>) -> Seq<char> {
    if s.len() > 0 && s.last() == '\r' {
        s.drop_last()
    } else {
        s
    }
}

/// The lines of a text. A line ends at a newline, or at a carriage return and a newline; the
/// last line need not end in one.
pub open spec fn lines_of(s: Seq<char>) -> Seq<Seq<char>> {
    let p = parts(s, '\n');
    let ended = p.drop_last().map_values(|l: Seq<char>| without_return(l));
    if p.last().len() == 0 {
        ended
    } else {
        ended.push(p.last())
    }
}

pub fn drop_return(s: &str) -> (r: String)
    ensures
        r@ == without_return(s@),
{
    let v = chars_of(s);
    let n: usize = v.len();
    if n > 0 && v[n - 1] == '\r' {
        slice_of(&v, 0, n - 1)
    } else {
        s.to_owned()
    }
}

pub fn lines(s: &str) -> (r: Vec<String>)
    ensures
        r.deep_view() == lines_of(s@),
{
    proof {
        parts_nonempty(s@, '\n');
    }
    let p = split(s, '\n');
    let ghost pv = p.deep_view();
    let n: usize = p.len() - 1;
    let mut out: Vec<String> = Vec::new();
    let mut i: usize = 0;
    let ghost ended = pv.drop_last().map_values(|l: Seq<char>| without_return(l));
    while i < n
        invariant
            i <= n,
            n == p@.len() - 1,
            pv == p.deep_view(),
            ended == pv.drop_last().map_values(|l: Seq<char>| without_return(l)),
            out.deep_view() == ended.take(i as int),
        decreases n - i,
    {
        let ghost shown = out.deep_view();
        let l = drop_return(p[i].as_str());
        out.push(l);
        assert(out.deep_view() == shown.push(l@));
        assert(l@ == ended[i as int]) by {
            assert(pv[i as int] == p@[i as int]@);
        }
        i += 1;
    }
    assert(ended.take(n as int) == ended);
    assert(pv.last() == p@[n as int]@);
    if p[n].as_str().is_empty() {
    } else {
        let ghost shown = out.deep_view();
        let l = p[n].clone();
        out.push(l);
        assert(out.deep_view() == shown.push(l@));
    }
    out
}

/// Texts put together with a separator between them.
pub open spec fn joined(l: Seq<Seq<char>>, sep: Seq<char>) -> Seq<char>
    decreases l.len(),
{
    if l.len() == 0 {
        Seq::empty()
    } else if l.len() == 1 {
        l[0]
    } else {
        joined(l.drop_last(), sep) + sep + l.last()
    }
}

pub fn join(l: &Vec<String>, sep: &str) -> (r: String)
    ensures
        r@ == joined(l.deep_view(), sep@),
{
    let mut out: String = String::new();
    let mut i: usize = 0;
    let ghost lv = l.deep_view();
    assert(out@ == joined(lv.take(0), sep@));
    while i < l.len()
        invariant
            i <= l@.len(),
            lv == l.deep_view(),
            out@ == joined(lv.take(i as int), sep@),
        decreases l@.len() - i,
    {
        assert(lv.take(i + 1).drop_last() == lv.take(i as int));
        assert(lv[i as int] == l@[i as int]@);
        if i > 0 {
            out.append(sep);
        }
        out.append(l[i].as_str());
        i += 1;
    }
    assert(lv.take(lv.len() as int) == lv);
    out
}

/// `a` comes before `b` in the order of texts: by the first character in which they differ, and
/// a text before what it begins.
pub open spec fn text_less(a: Seq<char>, b: Seq<char>) -> bool
    decreases a.len(),
{
    if b.len() == 0 {
        false
    } else if a.len() == 0 {
        true
    } else if a[0] != b[0] {
        a[0] < b[0]
    } else {
        text_less(a.drop_first(), b.drop_first())
    }
}

pub fn less(a: &str, b: &str) -> (r: bool)
    ensures
        r == text_less(a@, b@),
{
    let x = chars_of(a);
    let y = chars_of(b);
    let mut i: usize = 0;
    assert(a@.skip(0) == a@ && b@.skip(0) == b@);
    loop
        invariant
            i <= x@.len(),
            i <= y@.len(),
            x@ == a@,
            y@ == b@,
            text_less(a@.skip(i as int), b@.skip(i as int)) == text_less(a@, b@),
        decreases x@.len() - i,
    {
        if i == y.len() {
            return false;
        }
        if i == x.len() {
            return true;
        }
        if x[i] != y[i] {
            return x[i] < y[i];
        }
        assert(a@.skip(i as int).drop_first() == a@.skip(i + 1));
        assert(b@.skip(i as int).drop_first() == b@.skip(i + 1));
        i += 1;
    }
}

/// The decimal digits of a number.
pub open spec fn decimal(n: nat) -> Seq<char>
    decreases n,
{
    if n < 10 {
        seq![digit(n)]
    } else {
        decimal(n / 10).push(digit(n % 10))
    }
}

pub open spec fn digit(d: nat) -> char {
    ('0' as int + d) as char
}

fn digit_char(d: u64) -> (r: char)
    requires
        d < 10,
    ensures
        r == digit(d as nat),
{
    (48 + d as u8) as char
}

pub fn number(n: u64) -> (r: String)
    ensures
        r@ == decimal(n as nat),
    decreases n,
{
    if n < 10 {
        let mut s: String = String::new();
        s.push(digit_char(n));
        s
    } else {
        let mut s: String = number(n / 10);
        s.push(digit_char(n % 10));
        s
    }
}

/// A text with each carriage return before a newline taken out.
pub open spec fn unix_lines(s: Seq<char>) -> Seq<char>
    decreases s.len(),
{
    if s.len() == 0 {
        s
    } else {
        let before = unix_lines(s.drop_last());
        if s.last() == '\n' && s.len() >= 2 && s[s.len() - 2] == '\r' {
            before.drop_last().push('\n')
        } else {
            before.push(s.last())
        }
    }
}

/// Replaces each `\r\n` by `\n`.
pub fn unix_newlines(s: &str) -> (r: String)
    ensures
        r@ == unix_lines(s@),
{
    let v = chars_of(s);
    let mut out: Vec<char> = Vec::new();
    let mut i: usize = 0;
    assert(s@.take(0) == Seq::<char>::empty());
    while i < v.len()
        invariant
            i <= v@.len(),
            v@ == s@,
            out@ == unix_lines(s@.take(i as int)),
            i > 0 ==> out@.len() > 0,
        decreases v@.len() - i,
    {
        assert(s@.take(i + 1).drop_last() == s@.take(i as int));
        if v[i] == '\n' && i > 0 && v[i - 1] == '\r' {
            let _ = out.pop();
        }
        out.push(v[i]);
        i += 1;
    }
    assert(s@.take(s@.len() as int) == s@);
    text_of(out.as_slice())
}

/// A text without the copies of `pat` that it begins with.
pub open spec fn without_leading(s: Seq<char>, pat: Seq<char>) -> Seq<char>
    decreases s.len(),
{
    if pat.len() > 0 && begins(s, pat) {
        without_leading(s.skip(pat.len() as int), pat)
    } else {
        s
    }
}

pub fn trim_start_matches(s: &str, pat: &str) -> (r: String)
    requires
        pat@.len() > 0,
    ensures
        r@ == without_leading(s@, pat@),
{
    let mut cur: String = s.to_owned();
    loop
        invariant
            pat@.len() > 0,
            without_leading(cur@, pat@) == without_leading(s@, pat@),
        decreases cur@.len(),
    {
        match strip_prefix(cur.as_str(), pat) {
            Some(t) => {
                cur = t;
            },
            None => {
                return cur;
            },
        }
    }
}

/// A text without the copies of the character `c` that it ends in.
pub open spec fn without_trailing(s: Seq<char>, c: char) -> Seq<char>
    decreases s.len(),
{
    if s.len() > 0 && s.last() == c {
        without_trailing(s.drop_last(), c)
    } else {
        s
    }
}

pub fn trim_end_matches(s: &str, c: char) -> (r: String)
    ensures
        r@ == without_trailing(s@, c),
{
    let v = chars_of(s);
    let mut j: usize = v.len();
    assert(s@.take(j as int) == s@);
    while j > 0 && v[j - 1] == c
        invariant
            j <= v@.len(),
            v@ == s@,
            without_trailing(s@.take(j as int), c) == without_trailing(s@, c),
        decreases j,
    {
        assert(s@.take(j as int).drop_last() == s@.take(j - 1));
        j -= 1;
    }
    slice_of(&v, 0, j)
}

/// The last position of the character `c`.
pub open spec fn last_index(s: Seq<char>, c: char) -> Option<int>
    decreases s.len(),
{
    if s.len() == 0 {
        None
    } else if s.last() == c {
        Some(s.len() - 1)
    } else {
        last_index(s.drop_last(), c)
    }
}

pub fn rfind(v: &Vec<char>, c: char) -> (r: Option<usize>)
    ensures
        match r {
            Some(i) => i < v@.len() && last_index(v@, c) == Some(i as int),
            None => last_index(v@, c) is None,
        },
{
    let mut j: usize = v.len();
    assert(v@.take(j as int) == v@);
    while j > 0
        invariant
            j <= v@.len(),
            last_index(v@.take(j as int), c) == last_index(v@, c),
        decreases j,
    {
        assert(v@.take(j as int).drop_last() == v@.take(j - 1));
        if v[j - 1] == c {
            return Some(j - 1);
        }
        j -= 1;
    }
    None
}

/// The first `n` characters of a text, or all of it.
pub open spec fn first_chars(s: Seq<char>, n: int) -> Seq<char> {
    if s.len() <= n {
        s
    } else {
        s.take(n)
    }
}

pub fn take_chars(s: &str, n: usize) -> (r: String)
    ensures
        r@ == first_chars(s@, n as int),
{
    let v = chars_of(s);
    if v.len() <= n {
        s.to_owned()
    } else {
        slice_of(&v, 0, n)
    }
}

/// A text without its last character.
pub open spec fn popped(s: Seq<char>) -> Seq<char> {
    if s.len() == 0 {
        s
    } else {
        s.drop_last()
    }
}

pub fn pop_char(s: &str) -> (r: String)
    ensures
        r@ == popped(s@),
{
    let v = chars_of(s);
    if v.len() == 0 {
        String::new()
    } else {
        slice_of(&v, 0, v.len() - 1)
    }
}

/// Two texts, one behind the other.
pub fn cat(a: &str, b: &str) -> (r: String)
    ensures
        r@ == a@ + b@,
{
    let mut s: String = a.to_owned();
    s.append(b);
    s
}

pub fn cat3(a: &str, b: &str, c: &str) -> (r: String)
    ensures
        r@ == a@ + b@ + c@,
{
    let mut s: String = a.to_owned();
    s.append(b);
    s.append(c);
    s
}

/// A text put into a list before the first one that it comes before.
pub open spec fn inserted(l: Seq<Seq<char>>, x: Seq<char>) -> Seq<Seq<char>>
    decreases l.len(),
{
    if l.len() == 0 {
        seq![x]
    } else if text_less(x, l.last()) {
        inserted(l.drop_last(), x).push(l.last())
    } else {
        l.push(x)
    }
}

/// A list of texts in their order.
pub open spec fn sorted_texts(l: Seq<Seq<char>>) -> Seq<Seq<char>>
    decreases l.len(),
{
    if l.len() == 0 {
        l
    } else {
        inserted(sorted_texts(l.drop_last()), l.last())
    }
}

pub proof fn less_is_strict(a: Seq<char>)
    ensures
        !text_less(a, a),
    decreases a.len(),
{
    if a.len() > 0 {
        less_is_strict(a.drop_first());
    }
}

pub proof fn less_is_transitive(a: Seq<char>, b: Seq<char>, c: Seq<char>)
    requires
        text_less(a, b),
        text_less(b, c),
    ensures
        text_less(a, c),
    decreases a.len(),
{
    if a.len() > 0 && a[0] == b[0] && b[0] == c[0] {
        less_is_transitive(a.drop_first(), b.drop_first(), c.drop_first());
    }
}

pub proof fn less_is_total(a: Seq<char>, b: Seq<char>)
    ensures
        text_less(a, b) || text_less(b, a) || a == b,
    decreases a.len(),
{
    if a.len() > 0 && b.len() > 0 && a[0] == b[0] {
        less_is_total(a.drop_first(), b.drop_first());
        if a.drop_first() == b.drop_first() {
            assert(a == seq![a[0]] + a.drop_first());
            assert(b == seq![b[0]] + b.drop_first());
        }
    }
}

proof fn inserted_at(l: Seq<Seq<char>>, x: Seq<char>, j: int)
    requires
        0 <= j <= l.len(),
        j > 0 ==> !text_less(x, l[j - 1]),
        forall|k: int| j <= k < l.len() ==> text_less(x, #[trigger] l[k]),
    ensures
        inserted(l, x) == l.insert(j, x),
    decreases l.len(),
{
    if l.len() == j {
        assert(l.insert(j, x) == l.push(x));
    } else {
        let m = l.drop_last();
        assert(text_less(x, l[l.len() - 1]));
        inserted_at(m, x, j);
        assert(m.insert(j, x).push(l.last()) == l.insert(j, x));
    }
}

fn insert_text(l: &mut Vec<String>, x: String)
    ensures
        final(l).deep_view() == inserted(old(l).deep_view(), x@),
{
    let mut j: usize = l.len();
    let ghost lv = l.deep_view();
    while j > 0 && less(x.as_str(), l[j - 1].as_str())
        invariant
            j <= l@.len(),
            l@ == old(l)@,
            lv == l.deep_view(),
            forall|k: int| j <= k < lv.len() ==> text_less(x@, #[trigger] lv[k]),
        decreases j,
    {
        j -= 1;
        assert(lv[j as int] == l@[j as int]@);
    }
    proof {
        if j > 0 {
            assert(lv[j - 1] == l@[j - 1]@);
        }
        inserted_at(lv, x@, j as int);
    }
    l.insert(j, x);
    assert(l.deep_view() == lv.insert(j as int, x@));
}

pub fn sort_texts(l: &Vec<String>) -> (r: Vec<String>)
    ensures
        r.deep_view() == sorted_texts(l.deep_view()),
{
    let mut out: Vec<String> = Vec::new();
    let mut i: usize = 0;
    let ghost lv = l.deep_view();
    assert(out.deep_view() == sorted_texts(lv.take(0)));
    while i < l.len()
        invariant
            i <= l@.len(),
            lv == l.deep_view(),
            out.deep_view() == sorted_texts(lv.take(i as int)),
        decreases l@.len() - i,
    {
        assert(lv.take(i + 1).drop_last() == lv.take(i as int));
        assert(lv[i as int] == l@[i as int]@);
        insert_text(&mut out, l[i].clone());
        i += 1;
    }
    assert(lv.take(lv.len() as int) == lv);
    out
}

/// No text stands before one that it should follow.
pub open spec fn in_order(l: Seq<Seq<char>>) -> bool {
    forall|i: int, j: int| 0 <= i < j < l.len() ==> !text_less(#[trigger] l[j], #[trigger] l[i])
}

proof fn inserted_keeps_order(l: Seq<Seq<char>>, x: Seq<char>)
    requires
        in_order(l),
    ensures
        in_order(inserted(l, x)),
        inserted(l, x).to_multiset() == l.to_multiset().insert(x),
        forall|k: int|
            0 <= k < inserted(l, x).len() ==> inserted(l, x)[k] == x || l.contains(
                #[trigger] inserted(l, x)[k],
            ),
    decreases l.len(),
{
    broadcast use vstd::seq_lib::group_to_multiset_ensures;

    let r = inserted(l, x);
    if l.len() > 0 && text_less(x, l.last()) {
        let m = l.drop_last();
        inserted_keeps_order(m, x);
        let s = inserted(m, x);
        assert(l == m.push(l.last()));
        assert forall|i: int, j: int| 0 <= i < j < r.len() implies !text_less(
            #[trigger] r[j],
            #[trigger] r[i],
        ) by {
            if j == s.len() {
                assert(s[i] == r[i]);
                if r[i] == x {
                    if text_less(l.last(), x) {
                        less_is_transitive(x, l.last(), x);
                        less_is_strict(x);
                    }
                } else {
                    let k = choose|k: int| 0 <= k < m.len() && m[k] == s[i];
                    assert(l[k] == s[i]);
                    assert(!text_less(l[l.len() - 1], l[k]));
                }
            } else {
                assert(s[i] == r[i] && s[j] == r[j]);
            }
        }
        assert forall|k: int| 0 <= k < r.len() implies r[k] == x || l.contains(
            #[trigger] r[k],
        ) by {
            if k == s.len() {
                assert(l[l.len() - 1] == r[k]);
            } else {
                assert(s[k] == r[k]);
                if s[k] != x {
                    let q = choose|q: int| 0 <= q < m.len() && m[q] == s[k];
                    assert(l[q] == s[k]);
                }
            }
        }
        assert(s.push(l.last()).to_multiset() == s.to_multiset().insert(l.last()));
        assert(m.push(l.last()).to_multiset() == m.to_multiset().insert(l.last()));
        assert(l.to_multiset().insert(x) == r.to_multiset());
    } else {
        assert(r == l.push(x)) by {
            if l.len() == 0 {
                assert(l.push(x) == seq![x]);
            }
        }
        assert forall|i: int, j: int| 0 <= i < j < r.len() implies !text_less(
            #[trigger] r[j],
            #[trigger] r[i],
        ) by {
            if j == l.len() {
                if text_less(x, l[i]) && i < l.len() - 1 {
                    less_is_total(l[i], l.last());
                    assert(!text_less(l[l.len() - 1], l[i]));
                    if text_less(l[i], l.last()) {
                        less_is_transitive(x, l[i], l.last());
                    }
                }
            } else {
                assert(l[i] == r[i] && l[j] == r[j]);
            }
        }
        assert forall|k: int| 0 <= k < r.len() implies r[k] == x || l.contains(
            #[trigger] r[k],
        ) by {
            if k < l.len() {
                assert(l[k] == r[k]);
            }
        }
    }
}

/// Sorting a list of texts puts the same texts in order.
pub proof fn sorted_texts_in_order(l: Seq<Seq<char>>)
    ensures
        in_order(sorted_texts(l)),
        sorted_texts(l).to_multiset() == l.to_multiset(),
    decreases l.len(),
{
    broadcast use vstd::seq_lib::group_to_multiset_ensures;

    if l.len() > 0 {
        sorted_texts_in_order(l.drop_last());
        inserted_keeps_order(sorted_texts(l.drop_last()), l.last());
        assert(l == l.drop_last().push(l.last()));
    }
}

/// No part holds the separator.
pub proof fn parts_without_separator(s: Seq<char>, sep: char)
    ensures
        parts(s, sep).len() > 0,
        forall|i: int| 0 <= i < parts(s, sep).len() ==> !(#[trigger] parts(s, sep)[i]).contains(sep),
    decreases s.len(),
{
    if s.len() > 0 {
        let before = parts(s.drop_last(), sep);
        let p = parts(s, sep);
        parts_without_separator(s.drop_last(), sep);
        assert forall|i: int| 0 <= i < p.len() implies !(#[trigger] p[i]).contains(sep) by {
            if i < before.len() - 1 {
                assert(p[i] == before[i]);
            } else if i == before.len() - 1 {
                assert(!before[i].contains(sep));
                if s.last() == sep {
                    assert(p[i] == before[i]);
                } else {
                    assert(p[i] == before[i].push(s.last()));
                    if p[i].contains(sep) {
                        let k = choose|k: int| 0 <= k < p[i].len() && p[i][k] == sep;
                        assert(before[i][k] == sep);
                    }
                }
            }
        }
    }
}

/// The parts of two texts with the separator between them are the parts of each.
pub proof fn parts_of_two(a: Seq<char>, b: Seq<char>, sep: char)
    ensures
        parts(a + seq![sep] + b, sep) == parts(a, sep) + parts(b, sep),
    decreases b.len(),
{
    let s = a + seq![sep] + b;
    if b.len() == 0 {
        assert(s.drop_last() == a);
        assert(parts(b, sep) == seq![Seq::<char>::empty()]);
        assert(parts(a, sep).push(Seq::empty()) == parts(a, sep) + parts(b, sep));
    } else {
        assert(s.drop_last() == a + seq![sep] + b.drop_last());
        parts_of_two(a, b.drop_last(), sep);
        parts_nonempty(b.drop_last(), sep);
        let pa = parts(a, sep);
        let pb = parts(b.drop_last(), sep);
        assert((pa + pb).drop_last() == pa + pb.drop_last());
        assert((pa + pb).last() == pb.last());
        assert(parts(s, sep) == pa + parts(b, sep));
    }
}

proof fn parts_of_one(s: Seq<char>, sep: char)
    requires
        !s.contains(sep),
    ensures
        parts(s, sep) == seq![s],
    decreases s.len(),
{
    if s.len() > 0 {
        let m = s.drop_last();
        if m.contains(sep) {
            let k = choose|k: int| 0 <= k < m.len() && m[k] == sep;
            assert(s[k] == sep);
        }
        assert(s[s.len() - 1] != sep);
        parts_of_one(m, sep);
        assert(m.push(s.last()) == s);
        assert(seq![m].drop_last().push(s) == seq![s]);
    } else {
        assert(s == Seq::<char>::empty());
    }
}

/// Joined texts that do not hold the separator come apart again.
pub proof fn parts_of_joined(l: Seq<Seq<char>>, sep: char)
    requires
        l.len() > 0,
        forall|i: int| 0 <= i < l.len() ==> !(#[trigger] l[i]).contains(sep),
    ensures
        parts(joined(l, seq![sep]), sep) == l,
    decreases l.len(),
{
    if l.len() == 1 {
        assert(!l[0].contains(sep));
        parts_of_one(l[0], sep);
    } else {
        let m = l.drop_last();
        assert forall|i: int| 0 <= i < m.len() implies !(#[trigger] m[i]).contains(sep) by {
            assert(l[i] == m[i]);
        }
        assert(!l[l.len() - 1].contains(sep));
        parts_of_joined(m, sep);
        parts_of_one(l.last(), sep);
        parts_of_two(joined(m, seq![sep]), l.last(), sep);
    }
}

/// Joined texts begin with the first of them.
pub proof fn joined_first(l: Seq<Seq<char>>, sep: Seq<char>)
    requires
        l.len() > 0,
        l[0].len() > 0,
    ensures
        joined(l, sep).len() > 0,
        joined(l, sep)[0] == l[0][0],
    decreases l.len(),
{
    if l.len() > 1 {
        joined_first(l.drop_last(), sep);
    }
}

/// A text goes behind the others of a list.
pub fn push_text(l: &mut Vec<String>, t: String)
    ensures
        final(l).deep_view() == old(l).deep_view().push(t@),
{
    let ghost before = l.deep_view();
    l.push(t);
    assert(l.deep_view() == before.push(t@));
}

/// The first position of the character `c`.
pub open spec fn first_index(s: Seq<char>, c: char) -> Option<int>
    decreases s.len(),
{
    if s.len() == 0 {
        None
    } else {
        match first_index(s.drop_last(), c) {
            Some(i) => Some(i),
            None => if s.last() == c {
                Some(s.len() - 1)
            } else {
                None
            },
        }
    }
}

proof fn first_index_grows(s: Seq<char>, c: char, i: int)
    requires
        0 <= i <= s.len(),
        first_index(s.take(i), c) is Some,
    ensures
        first_index(s, c) == first_index(s.take(i), c),
    decreases s.len(),
{
    if i < s.len() {
        assert(s.drop_last().take(i) == s.take(i));
        first_index_grows(s.drop_last(), c, i);
    } else {
        assert(s.take(i) == s);
    }
}

pub fn find_char(v: &Vec<char>, c: char) -> (r: Option<usize>)
    ensures
        match r {
            Some(i) => i < v@.len() && first_index(v@, c) == Some(i as int),
            None => first_index(v@, c) is None,
        },
{
    let mut i: usize = 0;
    while i < v.len()
        invariant
            i <= v@.len(),
            first_index(v@.take(i as int), c) is None,
        decreases v@.len() - i,
    {
        assert(v@.take(i + 1).drop_last() == v@.take(i as int));
        if v[i] == c {
            proof {
                first_index_grows(v@, c, i + 1);
            }
            return Some(i);
        }
        i += 1;
    }
    assert(v@.take(v@.len() as int) == v@);
    None
}

/// A number that may be negative.
pub open spec fn signed_decimal(n: int) -> Seq<char> {
    if n < 0 {
        "-"@ + decimal((-n) as nat)
    } else {
        decimal(n as nat)
    }
}

pub fn signed_number(n: i64) -> (r: String)
    ensures
        r@ == signed_decimal(n as int),
{
    if n < 0 {
        let m: u64 = if n == i64::MIN {
            0x8000_0000_0000_0000
        } else {
            (-n) as u64
        };
        cat("-", number(m).as_str())
    } else {
        number(n as u64)
    }
}

} // verus!
