//! What words, lines and numbers are.

use crate::text;
use vstd::prelude::*;

verus! {

pub open spec fn all_white(s: Seq<char>) -> bool {
    forall|i: int| 0 <= i < s.len() ==> text::is_white(#[trigger] s[i])
}

pub open spec fn none_white(s: Seq<char>) -> bool {
    forall|i: int| 0 <= i < s.len() ==> !text::is_white(#[trigger] s[i])
}

/// Blanks, tabs and line ends are white space; no other character of ASCII from the exclamation
/// mark on is.
pub proof fn white_characters(c: char)
    ensures
        text::is_white(' '),
        text::is_white('\t'),
        text::is_white('\n'),
        text::is_white('\r'),
        '!' <= c <= '~' ==> !text::is_white(c),
{
}

proof fn start_dropped(a: Seq<char>, s: Seq<char>)
    requires
        all_white(a),
        s.len() > 0 ==> !text::is_white(s[0]),
    ensures
        text::drop_white_start(a + s) == s,
    decreases a.len(),
{
    if a.len() == 0 {
        assert(a + s == s);
    } else {
        let t = a + s;
        assert(text::is_white(a[0]));
        assert(t.first() == a[0]);
        assert(t.drop_first() == a.drop_first() + s);
        assert(all_white(a.drop_first())) by {
            assert forall|i: int| 0 <= i < a.drop_first().len() implies text::is_white(
                #[trigger] a.drop_first()[i],
            ) by {
                assert(a.drop_first()[i] == a[i + 1]);
            }
        }
        start_dropped(a.drop_first(), s);
    }
}

proof fn end_dropped(s: Seq<char>, b: Seq<char>)
    requires
        all_white(b),
        s.len() > 0 ==> !text::is_white(s.last()),
    ensures
        text::drop_white_end(s + b) == s,
    decreases b.len(),
{
    if b.len() == 0 {
        assert(s + b == s);
    } else {
        let t = s + b;
        assert(text::is_white(b[b.len() - 1]));
        assert(t.last() == b.last());
        assert(t.drop_last() == s + b.drop_last());
        assert(all_white(b.drop_last())) by {
            assert forall|i: int| 0 <= i < b.drop_last().len() implies text::is_white(
                #[trigger] b.drop_last()[i],
            ) by {
                assert(b.drop_last()[i] == b[i]);
            }
        }
        end_dropped(s, b.drop_last());
    }
}

/// To trim a text takes the white space from both ends, and nothing else.
pub proof fn trimming_takes_the_ends(a: Seq<char>, s: Seq<char>, b: Seq<char>)
    requires
        all_white(a),
        all_white(b),
        s.len() > 0,
        !text::is_white(s[0]),
        !text::is_white(s.last()),
    ensures
        text::trimmed(a + s + b) == s,
        text::trimmed(a).len() == 0,
{
    assert(a + s + b == a + (s + b));
    start_dropped(a, s + b);
    end_dropped(s, b);
    let none = Seq::<char>::empty();
    assert(a + none == a);
    start_dropped(a, none);
}

proof fn nonempty_of_two(l: Seq<Seq<char>>, m: Seq<Seq<char>>)
    ensures
        text::nonempty(l + m) == text::nonempty(l) + text::nonempty(m),
    decreases m.len(),
{
    if m.len() == 0 {
        assert(l + m == l);
        assert(text::nonempty(l) + text::nonempty(m) == text::nonempty(l));
    } else {
        assert((l + m).drop_last() == l + m.drop_last());
        nonempty_of_two(l, m.drop_last());
        assert(text::nonempty(l + m) == text::nonempty(l) + text::nonempty(m));
    }
}

/// A white-space character parts the words before it from those behind it.
pub proof fn words_are_parted_by_white_space(a: Seq<char>, w: char, b: Seq<char>)
    requires
        text::is_white(w),
    ensures
        text::words(a + seq![w] + b) == text::words(a) + text::words(b),
{
    assert(text::blanked(a + seq![w] + b) == text::blanked(a) + seq![' '] + text::blanked(b));
    text::parts_of_two(text::blanked(a), text::blanked(b), ' ');
    nonempty_of_two(text::parts(text::blanked(a), ' '), text::parts(text::blanked(b), ' '));
}

/// A text without white space is one word; an empty one holds none.
pub proof fn one_word(s: Seq<char>)
    requires
        none_white(s),
    ensures
        s.len() > 0 ==> text::words(s) == seq![s],
        text::words(Seq::empty()).len() == 0,
{
    assert(text::blanked(s) == s);
    assert(!s.contains(' ')) by {
        if s.contains(' ') {
            let i = choose|i: int| 0 <= i < s.len() && s[i] == ' ';
            assert(!text::is_white(s[i]));
        }
    }
    part_of_all(s, ' ');
    one_nonempty(s);
    let none = Seq::<char>::empty();
    assert(text::blanked(none) == none);
    part_of_all(none, ' ');
    one_nonempty(none);
}

proof fn one_nonempty(s: Seq<char>)
    ensures
        text::nonempty(seq![s]) == (if s.len() == 0 {
            Seq::<Seq<char>>::empty()
        } else {
            seq![s]
        }),
{
    let l = seq![s];
    assert(l.drop_last().len() == 0);
    assert(text::nonempty(l.drop_last()) == Seq::<Seq<char>>::empty());
    assert(l.last() == s);
    assert(Seq::<Seq<char>>::empty().push(s) == l);
}

proof fn part_of_all(s: Seq<char>, sep: char)
    requires
        !s.contains(sep),
    ensures
        text::parts(s, sep) == seq![s],
{
    let l = seq![s];
    text::parts_of_joined(l, sep);
    assert(text::joined(l, seq![sep]) == s);
}

/// A line ends at a newline, with or without a carriage return before it; what follows is read by
/// itself. The last line needs no newline.
pub proof fn lines_end_at_newlines(line: Seq<char>, rest: Seq<char>)
    requires
        !line.contains('\n'),
        line.len() > 0 ==> line.last() != '\r',
    ensures
        text::lines_of(line + seq!['\n'] + rest) == seq![line] + text::lines_of(rest),
        text::lines_of(line + seq!['\r'] + seq!['\n'] + rest) == seq![line] + text::lines_of(rest),
        line.len() > 0 ==> text::lines_of(line) == seq![line],
        text::lines_of(Seq::empty()).len() == 0,
{
    part_of_all(line, '\n');
    text::parts_of_two(line, rest, '\n');
    text::parts_nonempty(rest, '\n');
    let p = text::parts(rest, '\n');
    let all = seq![line] + p;
    let ret = line + seq!['\r'];
    assert(!ret.contains('\n')) by {
        if ret.contains('\n') {
            let i = choose|i: int| 0 <= i < ret.len() && ret[i] == '\n';
            if i < line.len() {
                assert(line[i] == '\n');
                assert(line.contains('\n'));
            }
        }
    }
    part_of_all(ret, '\n');
    text::parts_of_two(ret, rest, '\n');
    let f = |l: Seq<char>| text::without_return(l);
    assert(ret.drop_last() == line);
    assert(all.drop_last() == seq![line] + p.drop_last());
    assert(all.drop_last().map_values(f) == seq![line] + p.drop_last().map_values(f));
    let both = seq![ret] + p;
    assert(both.drop_last() == seq![ret] + p.drop_last());
    assert(both.drop_last().map_values(f) == seq![line] + p.drop_last().map_values(f));
    assert(all.last() == p.last() && both.last() == p.last());
    let ended = p.drop_last().map_values(f);
    assert(text::lines_of(line + seq!['\n'] + rest) == seq![line] + text::lines_of(rest)) by {
        assert((seq![line] + ended).push(p.last()) == seq![line] + ended.push(p.last()));
    }
    assert(text::lines_of(ret + seq!['\n'] + rest) == seq![line] + text::lines_of(rest)) by {
        assert((seq![line] + ended).push(p.last()) == seq![line] + ended.push(p.last()));
    }
    let one = seq![line];
    assert(one.drop_last().map_values(f) == Seq::<Seq<char>>::empty());
    assert(Seq::<Seq<char>>::empty().push(line) == one);
    let none = Seq::<char>::empty();
    part_of_all(none, '\n');
}

/// Texts are put in order by the first character in which they differ, and a text stands before
/// what it begins.
pub proof fn first_difference_decides(p: Seq<char>, c: char, x: Seq<char>, d: char, y: Seq<char>)
    ensures
        c < d ==> text::text_less(p + seq![c] + x, p + seq![d] + y),
        c > d ==> !text::text_less(p + seq![c] + x, p + seq![d] + y),
        text::text_less(p, p + seq![c] + x),
        !text::text_less(p + seq![c] + x, p),
    decreases p.len(),
{
    let a = p + seq![c] + x;
    let b = p + seq![d] + y;
    if p.len() == 0 {
        assert(a[0] == c && b[0] == d);
    } else {
        let q = p.drop_first();
        first_difference_decides(q, c, x, d, y);
        assert(a.drop_first() == q + seq![c] + x);
        assert(b.drop_first() == q + seq![d] + y);
        assert(a[0] == p[0] && b[0] == p[0]);
    }
}

/// The number that some digits stand for.
pub open spec fn value_of(s: Seq<char>) -> int
    decreases s.len(),
{
    if s.len() == 0 {
        0
    } else {
        value_of(s.drop_last()) * 10 + (s.last() as int - '0' as int)
    }
}

/// The digits of a number stand for it, and there is no leading zero.
pub proof fn digits_stand_for_the_number(n: nat)
    ensures
        value_of(text::decimal(n)) == n,
        text::decimal(n).len() > 0,
        forall|i: int| 0 <= i < text::decimal(n).len() ==> '0' <= #[trigger] text::decimal(n)[i] <= '9',
        n > 0 ==> text::decimal(n)[0] != '0',
    decreases n,
{
    let s = text::decimal(n);
    if n < 10 {
        assert(s.drop_last().len() == 0);
        assert(value_of(s.drop_last()) == 0);
        assert(s.last() as int == '0' as int + n);
    } else {
        digits_stand_for_the_number(n / 10);
        assert(s.drop_last() == text::decimal(n / 10));
        assert(s.last() as int == '0' as int + n % 10);
    }
}

/// A text is found in what it stands in, wherever that is, and begins or ends what it begins or
/// ends.
pub proof fn texts_are_found(a: Seq<char>, t: Seq<char>, b: Seq<char>)
    ensures
        text::holds(a + t + b, t),
        text::begins(t + b, t),
        text::ends(a + t, t),
        t.len() > a.len() ==> !text::holds(a, t),
{
    assert((a + t + b).subrange(a.len() as int, (a.len() + t.len()) as int) == t);
    assert(text::occurs_at(a + t + b, t, a.len() as int));
    assert((t + b).subrange(0, t.len() as int) == t);
    assert((a + t).subrange(a.len() as int, (a.len() + t.len()) as int) == t);
}

proof fn unix_lines_grow(a: Seq<char>, c: char)
    requires
        c != '\n',
    ensures
        text::unix_lines(a.push(c)) == text::unix_lines(a).push(c),
{
    assert(a.push(c).drop_last() == a);
}

/// A carriage return before a newline goes, and nothing else.
pub proof fn returns_before_newlines_go(a: Seq<char>, c: char)
    ensures
        c != '\n' ==> text::unix_lines(a.push(c)) == text::unix_lines(a).push(c),
        text::unix_lines(a.push('\r').push('\n')) == text::unix_lines(a).push('\n'),
        a.len() > 0 && a.last() != '\r' ==> text::unix_lines(a.push('\n')) == text::unix_lines(
            a,
        ).push('\n'),
        text::unix_lines(Seq::empty()).len() == 0,
{
    if c != '\n' {
        unix_lines_grow(a, c);
    }
    unix_lines_grow(a, '\r');
    let r = a.push('\r');
    let n = r.push('\n');
    assert(n.drop_last() == r);
    assert(n[n.len() - 2] == '\r');
    assert(text::unix_lines(r).drop_last() == text::unix_lines(a));
    assert(a.push('\n').drop_last() == a);
    if a.len() > 0 {
        assert(a.push('\n')[a.push('\n').len() - 2] == a.last());
    }
}

/// Joined texts stand one behind the other with the separator between them.
pub proof fn texts_are_joined(l: Seq<Seq<char>>, t: Seq<char>, sep: Seq<char>)
    ensures
        l.len() > 0 ==> text::joined(l.push(t), sep) == text::joined(l, sep) + sep + t,
        text::joined(seq![t], sep) == t,
        text::joined(Seq::<Seq<char>>::empty(), sep).len() == 0,
{
    assert(l.push(t).drop_last() == l);
}

/// A number below zero has a minus before it; any other is written as it is.
pub proof fn signed_numbers(n: int)
    ensures
        n >= 0 ==> text::signed_decimal(n) == text::decimal(n as nat),
        n < 0 ==> text::signed_decimal(n) == "-"@ + text::decimal((-n) as nat),
{
}

/// The first `n` characters of a longer text are its start; a shorter one is kept whole.
pub proof fn starts_are_taken(s: Seq<char>, t: Seq<char>)
    ensures
        text::first_chars(s + t, s.len() as int) == s,
        text::first_chars(s, (s.len() + t.len()) as int) == s,
        text::popped(Seq::<char>::empty()).len() == 0,
{
    assert((s + t).take(s.len() as int) == s);
    if t.len() == 0 {
        assert(s + t == s);
    }
}

} // verus!
