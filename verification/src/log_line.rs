//! How a line of a log is drawn: its level gives it a colour, and what is searched for is marked.

use crate::text;
use crate::theme::{bold, colored, Color, Span, SpanView, Style, Theme};
use vstd::prelude::*;
use vstd::utf8::{decode_utf8, encode_utf8, is_char_boundary, valid_utf8};

verus! {

/* ---------------- the level ---------------- */

/// The style of a text, which is given in lower case.
pub open spec fn level_look(lower: Seq<char>, theme: Theme) -> Style {
    if text::holds(lower, "error"@) || text::holds(lower, " level=error"@) || text::holds(
        lower,
        " err "@,
    ) || text::holds(lower, " e "@) {
        bold(Color::Red)
    } else if text::holds(lower, "warn"@) || text::holds(lower, " level=warn"@) {
        colored(Color::Yellow)
    } else if text::holds(lower, "debug"@) || text::holds(lower, "trace"@) {
        colored(Color::DarkGray)
    } else {
        colored(theme.fg)
    }
}

/// The style of a text, which is given in lower case.
pub fn lower_level_style(lower: &str, theme: Theme) -> (r: Style)
    ensures
        r == level_look(lower@, theme),
{
    if text::contains(lower, "error") || text::contains(lower, " level=error") || text::contains(
        lower,
        " err ",
    ) || text::contains(lower, " e ") {
        Style::bold(Color::Red)
    } else if text::contains(lower, "warn") || text::contains(lower, " level=warn") {
        Style::fg(Color::Yellow)
    } else if text::contains(lower, "debug") || text::contains(lower, "trace") {
        Style::fg(Color::DarkGray)
    } else {
        Style::fg(theme.fg)
    }
}

/// The style of a text by the level that it tells.
pub fn level_style(s: &str, theme: Theme) -> (r: Style)
    ensures
        r == level_look(text::lowercase(s@), theme),
{
    lower_level_style(text::lower(s).as_str(), theme)
}

/* ---------------- the timestamp ---------------- */

pub open spec fn is_digit(c: char) -> bool {
    '0' <= c <= '9'
}

/// `YYYY-MM-DDTHH:MM:SS`, or the same with a space in place of the `T`.
pub open spec fn starts_with_stamp(s: Seq<char>) -> bool {
    &&& s.len() >= 19
    &&& is_digit(s[0]) && is_digit(s[1]) && is_digit(s[2]) && is_digit(s[3])
    &&& s[4] == '-'
    &&& is_digit(s[5]) && is_digit(s[6])
    &&& s[7] == '-'
    &&& is_digit(s[8]) && is_digit(s[9])
    &&& s[10] == 'T' || s[10] == ' '
    &&& is_digit(s[11]) && is_digit(s[12])
    &&& s[13] == ':'
    &&& is_digit(s[14]) && is_digit(s[15])
    &&& s[16] == ':'
    &&& is_digit(s[17]) && is_digit(s[18])
}

/// What may follow the seconds: a fraction and a time zone.
pub open spec fn in_stamp_tail(c: char) -> bool {
    is_digit(c) || c == '.' || c == 'Z' || c == '+' || c == '-' || c == ':'
}

/// The end of the run of such characters that begins at `i`.
pub open spec fn tail_end(s: Seq<char>, i: int) -> int
    decreases s.len() - i,
{
    if i < s.len() && in_stamp_tail(s[i]) {
        tail_end(s, i + 1)
    } else {
        i
    }
}

/// Where the timestamp at the start of a line ends.
pub open spec fn stamp_end(s: Seq<char>) -> Option<int> {
    if starts_with_stamp(s) {
        Some(tail_end(s, 19))
    } else {
        None
    }
}

fn is_digit_char(c: char) -> (r: bool)
    ensures
        r == is_digit(c),
{
    '0' <= c && c <= '9'
}

/// Where the timestamp at the start of a line ends. All its characters take one byte, so this
/// counts characters and bytes alike.
pub fn guess_timestamp_end(s: &str) -> (r: Option<usize>)
    ensures
        match r {
            Some(i) => stamp_end(s@) == Some(i as int) && i <= s@.len(),
            None => stamp_end(s@) is None,
        },
{
    let v = text::chars_of(s);
    let n: usize = v.len();
    if n < 19 {
        return None;
    }
    let looks_iso = is_digit_char(v[0]) && is_digit_char(v[1]) && is_digit_char(v[2])
        && is_digit_char(v[3]) && v[4] == '-' && is_digit_char(v[5]) && is_digit_char(v[6]) && v[7]
        == '-' && is_digit_char(v[8]) && is_digit_char(v[9]) && (v[10] == 'T' || v[10] == ' ')
        && is_digit_char(v[11]) && is_digit_char(v[12]) && v[13] == ':' && is_digit_char(v[14])
        && is_digit_char(v[15]) && v[16] == ':' && is_digit_char(v[17]) && is_digit_char(v[18]);
    if !looks_iso {
        return None;
    }
    let mut i: usize = 19;
    while i < n
        invariant
            19 <= i <= n,
            n == v@.len(),
            starts_with_stamp(v@),
            v@ == s@,
            tail_end(v@, 19) == tail_end(v@, i as int),
        decreases n - i,
    {
        let c = v[i];
        if !(is_digit_char(c) || c == '.' || c == 'Z' || c == '+' || c == '-' || c == ':') {
            return Some(i);
        }
        i += 1;
    }
    Some(i)
}

/* ---------------- the search ---------------- */

/// The first position, from `i` on, at which some bytes stand.
pub open spec fn find_bytes(hay: Seq<u8>, needle: Seq<u8>, i: int) -> Option<int>
    decreases hay.len() + 1 - i,
{
    if i + needle.len() > hay.len() {
        None
    } else if hay.subrange(i, i + needle.len()) == needle {
        Some(i)
    } else {
        find_bytes(hay, needle, i + 1)
    }
}

pub proof fn find_bytes_bounds(hay: Seq<u8>, needle: Seq<u8>, i: int)
    ensures
        find_bytes(hay, needle, i) matches Some(k) ==> i <= k && k + needle.len() <= hay.len(),
    decreases hay.len() + 1 - i,
{
    if i + needle.len() <= hay.len() && hay.subrange(i, i + needle.len()) != needle {
        find_bytes_bounds(hay, needle, i + 1);
    }
}

/// The text of some of the bytes of a text.
pub open spec fn piece(s: Seq<u8>, i: int, j: int) -> Seq<char> {
    decode_utf8(s.subrange(i, j))
}

/// The pieces of a text from its byte `i` on, each with whether it is what is searched for. The
/// search goes through the text in lower case, and its places are taken over into the text;
/// where one of them falls between two bytes of a character there, nothing more is marked.
pub open spec fn marked(s: Seq<u8>, lower: Seq<u8>, q: Seq<u8>, i: int) -> Seq<(Seq<char>, bool)>
    decreases s.len() - i,
{
    if i >= s.len() {
        Seq::empty()
    } else if q.len() == 0 {
        seq![(piece(s, i, s.len() as int), false)]
    } else {
        match find_bytes(lower, q, i) {
            Some(to) => {
                let end = to + q.len();
                if end <= s.len() && is_char_boundary(s, to) && is_char_boundary(s, end) {
                    proof {
                        find_bytes_bounds(lower, q, i);
                    }
                    (if i < to {
                        seq![(piece(s, i, to), false)]
                    } else {
                        Seq::empty()
                    }) + seq![(piece(s, to, end), true)] + marked(s, lower, q, end)
                } else {
                    seq![(piece(s, i, s.len() as int), false)]
                }
            },
            None => seq![(piece(s, i, s.len() as int), false)],
        }
    }
}

/// The texts of the pieces, one after the other.
pub open spec fn flat(l: Seq<(Seq<char>, bool)>) -> Seq<char>
    decreases l.len(),
{
    if l.len() == 0 {
        Seq::empty()
    } else {
        l[0].0 + flat(l.drop_first())
    }
}

proof fn flat_adds(a: Seq<(Seq<char>, bool)>, b: Seq<(Seq<char>, bool)>)
    ensures
        flat(a + b) == flat(a) + flat(b),
    decreases a.len(),
{
    if a.len() == 0 {
        assert(a + b == b);
    } else {
        assert((a + b).drop_first() == a.drop_first() + b);
        flat_adds(a.drop_first(), b);
    }
}

/// The boundaries of what follows a boundary are those of the whole text.
proof fn boundary_after(s: Seq<u8>, i: int, j: int)
    requires
        valid_utf8(s),
        is_char_boundary(s, i),
        0 <= i <= j,
    ensures
        i <= s.len(),
        valid_utf8(s.subrange(i, s.len() as int)),
        is_char_boundary(s, j) == is_char_boundary(s.subrange(i, s.len() as int), j - i),
    decreases s.len(),
{
    vstd::utf8::valid_utf8_split(s, i);
    if i == 0 {
        assert(s.subrange(0, s.len() as int) == s);
    } else {
        let rest = vstd::utf8::pop_first_scalar(s);
        let w = vstd::utf8::length_of_first_scalar(s);
        assert(is_char_boundary(rest, i - w));
        assert(i >= w);
        boundary_after(rest, i - w, j - w);
        assert(s.subrange(i, s.len() as int) == rest.subrange(i - w, rest.len() as int));
    }
}

/// Marking loses nothing: the pieces, one after the other, are the text.
pub proof fn marking_keeps_the_text(s: Seq<char>, lower: Seq<char>, q: Seq<char>)
    ensures
        flat(marked(encode_utf8(s), encode_utf8(lower), encode_utf8(q), 0)) == s,
{
    broadcast use vstd::utf8::encode_utf8_valid_utf8;

    let b = encode_utf8(s);
    marked_from(b, encode_utf8(lower), encode_utf8(q), 0);
    assert(b.subrange(0, b.len() as int) == b);
    vstd::utf8::encode_utf8_decode_utf8(s);
}

proof fn marked_from(s: Seq<u8>, lower: Seq<u8>, q: Seq<u8>, i: int)
    requires
        valid_utf8(s),
        0 <= i <= s.len(),
        is_char_boundary(s, i),
    ensures
        flat(marked(s, lower, q, i)) == piece(s, i, s.len() as int),
    decreases s.len() - i,
{
    let n = s.len() as int;
    let rest = s.subrange(i, n);
    boundary_after(s, i, i);
    if i >= n {
        assert(rest.len() == 0);
        assert(flat(marked(s, lower, q, i)) == piece(s, i, n));
    } else {
        let last = seq![(piece(s, i, n), false)];
        assert(last.drop_first() == Seq::<(Seq<char>, bool)>::empty());
        reveal_with_fuel(flat, 2);
        assert(flat(last) =~= piece(s, i, n));
        if q.len() == 0 {
        } else if let Some(to) = find_bytes(lower, q, i) {
            let end = to + q.len();
            if end <= n && is_char_boundary(s, to) && is_char_boundary(s, end) {
                find_bytes_bounds(lower, q, i);
                boundary_after(s, i, to);
                boundary_after(s, to, end);
                boundary_after(s, end, end);
                assert(end <= n);
                marked_from(s, lower, q, end);
                // rest = [i, to) + [to, end) + [end, n)
                vstd::utf8::decode_utf8_split(rest, to - i);
                assert(rest.subrange(0, to - i) == s.subrange(i, to));
                let tail = s.subrange(to, n);
                assert(rest.subrange(to - i, rest.len() as int) == tail);
                vstd::utf8::decode_utf8_split(tail, end - to);
                assert(tail.subrange(0, end - to) == s.subrange(to, end));
                assert(tail.subrange(end - to, tail.len() as int) == s.subrange(end, n));
                let a = if i < to {
                    seq![(piece(s, i, to), false)]
                } else {
                    Seq::empty()
                };
                let b = seq![(piece(s, to, end), true)];
                assert(b.drop_first() == Seq::<(Seq<char>, bool)>::empty());
                assert(flat(b) == piece(s, to, end));
                if i < to {
                    assert(a.drop_first() == Seq::<(Seq<char>, bool)>::empty());
                    assert(flat(a) == piece(s, i, to));
                } else {
                    assert(s.subrange(i, to).len() == 0);
                    assert(flat(a) == piece(s, i, to));
                }
                flat_adds(a + b, marked(s, lower, q, end));
                flat_adds(a, b);
            }
        }
    }
}

/// A style with what marks a find laid over it.
pub open spec fn highlighted(base: Style, theme: Theme) -> Style {
    Style { fg: Some(Color::Black), bg: Some(theme.accent), bold: true, dim: base.dim }
}

pub open spec fn marked_spans(l: Seq<(Seq<char>, bool)>, base: Style, theme: Theme) -> Seq<SpanView> {
    Seq::new(
        l.len(),
        |i: int|
            SpanView {
                text: l[i].0,
                style: if l[i].1 {
                    highlighted(base, theme)
                } else {
                    base
                },
            },
    )
}

fn find_bytes_from(hay: &[u8], needle: &[u8], from: usize) -> (r: Option<usize>)
    ensures
        match r {
            Some(i) => find_bytes(hay@, needle@, from as int) == Some(i as int),
            None => find_bytes(hay@, needle@, from as int) is None,
        },
{
    let n: usize = hay.len();
    let m: usize = needle.len();
    let mut i: usize = from;
    while i <= n && m <= n - i
        invariant
            n == hay@.len(),
            m == needle@.len(),
            find_bytes(hay@, needle@, from as int) == find_bytes(hay@, needle@, i as int),
        decreases n + 1 - i,
    {
        let mut k: usize = 0;
        while k < m && hay[i + k] == needle[k]
            invariant
                i + m <= n,
                k <= m,
                n == hay@.len(),
                m == needle@.len(),
                forall|j: int| 0 <= j < k ==> hay@[i + j] == needle@[j],
            decreases m - k,
        {
            k += 1;
        }
        if k == m {
            assert(hay@.subrange(i as int, i + m) == needle@);
            return Some(i);
        }
        assert(hay@.subrange(i as int, i + m)[k as int] != needle@[k as int]);
        if i == n {
            assert(find_bytes(hay@, needle@, i + 1) is None);
            return None;
        }
        i += 1;
    }
    None
}

proof fn text_of_bytes(t: Seq<char>, b: Seq<u8>)
    requires
        encode_utf8(t) == b,
    ensures
        t == decode_utf8(b),
{
    vstd::utf8::encode_utf8_decode_utf8(t);
}

/// The spans of a text in which what is searched for is marked. The text comes with itself in
/// lower case, and what is searched for is in lower case too.
pub fn mark_query(s: &str, lower: &str, q: &str, base: Style, theme: Theme) -> (r: Vec<Span>)
    ensures
        r.deep_view() == marked_spans(
            marked(encode_utf8(s@), encode_utf8(lower@), encode_utf8(q@), 0),
            base,
            theme,
        ),
{
    broadcast use vstd::utf8::encode_utf8_valid_utf8;

    let lb = lower.as_bytes();
    let qb = q.as_bytes();
    let ghost sb = encode_utf8(s@);
    let n: usize = s.as_bytes().len();
    let hi = Style { fg: Some(Color::Black), bg: Some(theme.accent), bold: true, dim: base.dim };
    let mut out: Vec<Span> = Vec::new();
    let mut i: usize = 0;
    let mut rest: &str = s;
    let ghost all = marked(sb, lb@, qb@, 0);
    let ghost mut done: Seq<(Seq<char>, bool)> = Seq::empty();
    proof {
        assert(sb.subrange(0, sb.len() as int) == sb);
        assert(done + all == all);
        assert(out.deep_view() == marked_spans(done, base, theme));
    }
    while i < n
        invariant
            i <= n,
            n == sb.len(),
            valid_utf8(sb),
            sb == encode_utf8(s@),
            is_char_boundary(sb, i as int),
            encode_utf8(rest@) == sb.subrange(i as int, n as int),
            hi == highlighted(base, theme),
            all == marked(encode_utf8(s@), encode_utf8(lower@), encode_utf8(q@), 0),
            all == done + marked(sb, lb@, qb@, i as int),
            out.deep_view() == marked_spans(done, base, theme),
        decreases n - i,
    {
        let ghost before = out.deep_view();
        let found = if qb.len() == 0 {
            None
        } else {
            find_bytes_from(lb, qb, i)
        };
        let ghost held = marked(sb, lb@, qb@, i as int);
        if let Some(to) = found {
            proof {
                find_bytes_bounds(lb@, qb@, i as int);
                boundary_after(sb, i as int, to as int);
            }
            let room: usize = lb.len();
            let end: usize = to + qb.len();
            if end <= n && s.is_char_boundary(to) && s.is_char_boundary(end) {
                proof {
                    boundary_after(sb, to as int, end as int);
                    boundary_after(sb, end as int, end as int);
                }
                let (head, tail) = rest.split_at(to - i);
                assert(encode_utf8(tail@) == sb.subrange(to as int, n as int));
                let (found_text, after) = tail.split_at(end - to);
                proof {
                    assert(encode_utf8(head@) == sb.subrange(i as int, to as int));
                    text_of_bytes(head@, sb.subrange(i as int, to as int));
                    assert(encode_utf8(found_text@) == sb.subrange(to as int, end as int));
                    text_of_bytes(found_text@, sb.subrange(to as int, end as int));
                    assert(encode_utf8(after@) == sb.subrange(end as int, n as int));
                }
                let ghost first = if i < to {
                    seq![(piece(sb, i as int, to as int), false)]
                } else {
                    Seq::empty()
                };
                let ghost hit = seq![(piece(sb, to as int, end as int), true)];
                if i < to {
                    out.push(Span::new(head, base));
                    assert(out.deep_view() == before.push(SpanView { text: head@, style: base }));
                }
                let ghost middle = out.deep_view();
                out.push(Span::new(found_text, hi));
                proof {
                    assert(out.deep_view() == middle.push(SpanView { text: found_text@, style: hi }));
                    assert(held == first + hit + marked(sb, lb@, qb@, end as int));
                    let next = done + first + hit;
                    assert(all == next + marked(sb, lb@, qb@, end as int));
                    assert(out.deep_view() == marked_spans(next, base, theme));
                    done = next;
                }
                rest = after;
                i = end;
                continue ;
            }
        }
        proof {
            text_of_bytes(rest@, sb.subrange(i as int, n as int));
            assert(held == seq![(piece(sb, i as int, n as int), false)]);
        }
        out.push(Span::new(rest, base));
        assert(out.deep_view() == before.push(SpanView { text: rest@, style: base }));
        assert(out.deep_view() == marked_spans(all, base, theme));
        return out;
    }
    assert(marked(sb, lb@, qb@, i as int) == Seq::<(Seq<char>, bool)>::empty());
    assert(all == done);
    out
}

/* ---------------- the line ---------------- */

/// The spans of one part of a line.
pub open spec fn part_spans(s: Seq<char>, query: Seq<char>, theme: Theme) -> Seq<SpanView> {
    let base = level_look(text::lowercase(s), theme);
    if query.len() == 0 {
        seq![SpanView { text: s, style: base }]
    } else {
        marked_spans(
            marked(
                encode_utf8(s),
                encode_utf8(text::lowercase(s)),
                encode_utf8(text::lowercase(query)),
                0,
            ),
            base,
            theme,
        )
    }
}

/// The spans of a line: the timestamp, where it begins with one, is a part of its own.
pub open spec fn line_spans(line: Seq<char>, query: Seq<char>, theme: Theme) -> Seq<SpanView> {
    match stamp_end(line) {
        Some(i) => part_spans(line.take(i), query, theme) + part_spans(line.skip(i), query, theme),
        None => part_spans(line, query, theme),
    }
}

fn highlight_level_and_query(s: &str, query: &str, theme: Theme) -> (r: Vec<Span>)
    ensures
        r.deep_view() == part_spans(s@, query@, theme),
{
    let lower = text::lower(s);
    let base = lower_level_style(lower.as_str(), theme);
    if query.is_empty() {
        let mut out: Vec<Span> = Vec::new();
        out.push(Span::new(s, base));
        assert(out.deep_view() == seq![SpanView { text: s@, style: base }]);
        return out;
    }
    mark_query(s, lower.as_str(), text::lower(query).as_str(), base, theme)
}

/// The spans of a line, with what is searched for marked.
pub fn render_line(line: &str, query: &str, theme: Theme) -> (r: Vec<Span>)
    ensures
        r.deep_view() == line_spans(line@, query@, theme),
{
    if let Some(end) = guess_timestamp_end(line) {
        let v = text::chars_of(line);
        let stamp = text::slice_of(&v, 0, end);
        let rest = text::suffix_of(&v, end);
        assert(stamp@ == line@.take(end as int));
        let mut out = highlight_level_and_query(stamp.as_str(), query, theme);
        let mut more = highlight_level_and_query(rest.as_str(), query, theme);
        let ghost a = out.deep_view();
        let ghost b = more.deep_view();
        out.append(&mut more);
        assert(out.deep_view() == a + b);
        return out;
    }
    highlight_level_and_query(line, query, theme)
}

} // verus!
