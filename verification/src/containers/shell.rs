//! A line-by-line shell in a container.

use crate::key::{KeyCode, KeyEvent};
use crate::output::CommandOutput;
use crate::text;
use vstd::prelude::*;

verus! {

/* ---------------- quoting ---------------- */

/// Characters that a shell takes as they are.
pub open spec fn is_plain(c: char) -> bool {
    ||| 'a' <= c <= 'z'
    ||| 'A' <= c <= 'Z'
    ||| '0' <= c <= '9'
    ||| c == '/'
    ||| c == '.'
    ||| c == '_'
    ||| c == '-'
}

pub open spec fn all_plain(s: Seq<char>) -> bool {
    forall|i: int| 0 <= i < s.len() ==> is_plain(#[trigger] s[i])
}

/// A character as it is written within single quotes.
pub open spec fn quoted_char(c: char) -> Seq<char> {
    if c == '\'' {
        seq!['\'', '"', '\'', '"', '\'']
    } else {
        seq![c]
    }
}

pub open spec fn quoted(s: Seq<char>) -> Seq<char>
    decreases s.len(),
{
    if s.len() == 0 {
        s
    } else {
        quoted(s.drop_last()) + quoted_char(s.last())
    }
}

/// A text as an argument for a shell.
pub open spec fn escaped(s: Seq<char>) -> Seq<char> {
    if s.len() == 0 {
        seq!['\'', '\'']
    } else if all_plain(s) {
        s
    } else {
        seq!['\''] + quoted(s) + seq!['\'']
    }
}

fn is_plain_char(c: char) -> (r: bool)
    ensures
        r == is_plain(c),
{
    ('a' <= c && c <= 'z') || ('A' <= c && c <= 'Z') || ('0' <= c && c <= '9') || c == '/' || c
        == '.' || c == '_' || c == '-'
}

/// Escapes a simple argument for sh or bash.
pub fn escape_for_shell(s: &str) -> (r: String)
    ensures
        r@ == escaped(s@),
{
    let v = text::chars_of(s);
    let mut out: String = String::new();
    if v.len() == 0 {
        out.push('\'');
        out.push('\'');
        assert(out@ == seq!['\'', '\'']);
        return out;
    }
    let mut plain: bool = true;
    let mut i: usize = 0;
    while i < v.len()
        invariant
            i <= v@.len(),
            plain == all_plain(v@.take(i as int)),
        decreases v@.len() - i,
    {
        let ghost before = v@.take(i as int);
        assert(v@.take(i + 1) == before.push(v@[i as int]));
        if !is_plain_char(v[i]) {
            assert(!is_plain(v@.take(i + 1)[i as int]));
            plain = false;
        } else {
            assert(all_plain(v@.take(i + 1)) ==> all_plain(before)) by {
                if all_plain(v@.take(i + 1)) {
                    assert forall|j: int| 0 <= j < before.len() implies is_plain(
                        #[trigger] before[j],
                    ) by {
                        assert(v@.take(i + 1)[j] == before[j]);
                    }
                }
            }
        }
        i += 1;
    }
    assert(v@.take(v@.len() as int) == v@);
    if plain {
        return s.to_owned();
    }
    out.push('\'');
    i = 0;
    assert(out@ == seq!['\''] + quoted(v@.take(0)));
    while i < v.len()
        invariant
            i <= v@.len(),
            out@ == seq!['\''] + quoted(v@.take(i as int)),
        decreases v@.len() - i,
    {
        assert(v@.take(i + 1).drop_last() == v@.take(i as int));
        let ghost before = out@;
        if v[i] == '\'' {
            out.push('\'');
            out.push('"');
            out.push('\'');
            out.push('"');
            out.push('\'');
        } else {
            out.push(v[i]);
        }
        assert(out@ == before + quoted_char(v@[i as int]));
        i += 1;
    }
    out.push('\'');
    out
}

/// Where a shell stands as it reads a word.
#[derive(PartialEq, Eq, Structural)]
pub enum Quote {
    Bare,
    Single,
    Double,
}

/// The word that a shell reads from a text: what the quotes enclose is taken as it is. `None` if
/// a quote is left open, or where an expansion or a separator would come into play.
pub open spec fn shell_word(s: Seq<char>, q: Quote) -> Option<Seq<char>>
    decreases s.len(),
{
    if s.len() == 0 {
        if q == Quote::Bare {
            Some(s)
        } else {
            None
        }
    } else {
        let c = s[0];
        let rest = s.drop_first();
        match q {
            Quote::Bare => if c == '\'' {
                shell_word(rest, Quote::Single)
            } else if c == '"' {
                shell_word(rest, Quote::Double)
            } else if is_plain(c) {
                before_word(c, shell_word(rest, q))
            } else {
                None
            },
            Quote::Single => if c == '\'' {
                shell_word(rest, Quote::Bare)
            } else {
                before_word(c, shell_word(rest, q))
            },
            Quote::Double => if c == '"' {
                shell_word(rest, Quote::Bare)
            } else if c == '$' || c == '`' || c == '\\' {
                None
            } else {
                before_word(c, shell_word(rest, q))
            },
        }
    }
}

pub open spec fn before_word(c: char, w: Option<Seq<char>>) -> Option<Seq<char>> {
    match w {
        Some(t) => Some(seq![c] + t),
        None => None,
    }
}

proof fn plain_word(s: Seq<char>)
    requires
        all_plain(s),
    ensures
        shell_word(s, Quote::Bare) == Some(s),
    decreases s.len(),
{
    if s.len() > 0 {
        assert(is_plain(s[0]));
        assert forall|i: int| 0 <= i < s.drop_first().len() implies is_plain(
            #[trigger] s.drop_first()[i],
        ) by {
            assert(s[i + 1] == s.drop_first()[i]);
        }
        plain_word(s.drop_first());
        assert(seq![s[0]] + s.drop_first() == s);
    }
}

/// Behind the quoted characters of `s`, a shell has read `s` and is still within the quotes.
proof fn quoted_word(s: Seq<char>, rest: Seq<char>)
    ensures
        shell_word(quoted(s) + rest, Quote::Single) == (match shell_word(rest, Quote::Single) {
            Some(t) => Some(s + t),
            None => None,
        }),
    decreases s.len(),
{
    if s.len() == 0 {
        assert(quoted(s) + rest == rest);
        match shell_word(rest, Quote::Single) {
            Some(t) => {
                assert(s + t == t);
            },
            None => {},
        }
    } else {
        let m = s.drop_last();
        let c = s.last();
        let tail = quoted_char(c) + rest;
        assert(quoted(s) + rest == quoted(m) + tail);
        quoted_word(m, tail);
        if c == '\'' {
            let t1 = tail.drop_first();
            let t2 = t1.drop_first();
            let t3 = t2.drop_first();
            let t4 = t3.drop_first();
            let t5 = t4.drop_first();
            assert(t5 == rest);
            assert(tail[0] == '\'' && t1[0] == '"' && t2[0] == '\'' && t3[0] == '"' && t4[0]
                == '\'');
            assert(shell_word(t4, Quote::Bare) == shell_word(rest, Quote::Single));
            assert(shell_word(t3, Quote::Double) == shell_word(t4, Quote::Bare));
            assert(shell_word(t2, Quote::Double) == before_word('\'', shell_word(t3, Quote::Double)));
            assert(shell_word(t1, Quote::Bare) == shell_word(t2, Quote::Double));
            assert(shell_word(tail, Quote::Single) == shell_word(t1, Quote::Bare));
        } else {
            assert(tail.drop_first() == rest);
            assert(tail[0] == c);
        }
        match shell_word(rest, Quote::Single) {
            Some(t) => {
                assert(m + (seq![c] + t) == s + t);
            },
            None => {},
        }
    }
}

/// A shell reads an escaped text as one word, which is the text.
pub proof fn escaped_reads_back(s: Seq<char>)
    ensures
        shell_word(escaped(s), Quote::Bare) == Some(s),
{
    if s.len() == 0 {
        let e = escaped(s);
        assert(e.drop_first().drop_first() == s);
        assert(e.drop_first()[0] == '\'');
        assert(shell_word(s, Quote::Bare) == Some(s));
        assert(shell_word(e.drop_first(), Quote::Single) == Some(s));
    } else if all_plain(s) {
        plain_word(s);
    } else {
        let end = seq!['\''];
        let e = escaped(s);
        assert(e.drop_first() == quoted(s) + end);
        let none = Seq::<char>::empty();
        assert(end.drop_first() == none);
        assert(shell_word(none, Quote::Bare) == Some(none));
        assert(shell_word(end, Quote::Single) == Some(none));
        quoted_word(s, end);
        assert(s + none == s);
    }
}

/* ---------------- paths ---------------- */

/// A directory and a name in it.
pub open spec fn joined_path(base: Seq<char>, name: Seq<char>) -> Seq<char> {
    if base == "."@ {
        name
    } else if base == "/"@ {
        "/"@ + text::without_leading(name, "/"@)
    } else {
        text::without_trailing(base, '/') + "/"@ + text::without_leading(name, "/"@)
    }
}

/// Joins a directory and a name, with care for `/` and `.`.
pub fn join_base_name(base: &str, name: &str) -> (r: String)
    ensures
        r@ == joined_path(base@, name@),
{
    proof {
        reveal_strlit("/");
    }
    if text::same(base, ".") {
        name.to_owned()
    } else if text::same(base, "/") {
        text::cat("/", text::trim_start_matches(name, "/").as_str())
    } else {
        text::cat3(
            text::trim_end_matches(base, '/').as_str(),
            "/",
            text::trim_start_matches(name, "/").as_str(),
        )
    }
}

/// The home directory, as far as it is known.
pub open spec fn home_or_root(home: Option<Seq<char>>) -> Seq<char> {
    match home {
        Some(h) => h,
        None => "/root"@,
    }
}

/// A path with a leading `~` replaced by the home directory.
pub open spec fn expanded(arg: Seq<char>, home: Option<Seq<char>>) -> Seq<char> {
    if arg == "~"@ {
        home_or_root(home)
    } else if text::begins(arg, "~/"@) {
        home_or_root(home) + "/"@ + text::without_leading(arg, "~/"@)
    } else {
        arg
    }
}

/// The argument of `cd`, as a directory and what a name in it begins with.
pub open spec fn base_and_pattern(arg: Seq<char>, home: Option<Seq<char>>) -> (Seq<char>, Seq<
    char,
>) {
    let a = text::trimmed(arg);
    if a.len() == 0 {
        ("."@, Seq::empty())
    } else {
        let e = expanded(a, home);
        if text::ends(e, "/"@) {
            (e, Seq::empty())
        } else {
            match text::last_index(e, '/') {
                Some(i) => if i > 0 {
                    (e.take(i), e.skip(i + 1))
                } else {
                    ("."@, e)
                },
                None => ("."@, e),
            }
        }
    }
}

fn home_text(home: &Option<String>) -> (r: String)
    ensures
        r@ == home_or_root(home.deep_view()),
{
    match home {
        Some(h) => h.clone(),
        None => "/root".to_owned(),
    }
}

/// Splits the argument of `cd` into a directory and what a name in it begins with.
pub fn split_base_and_pattern(arg: &str, home: &Option<String>) -> (r: (String, String))
    ensures
        (r.0@, r.1@) == base_and_pattern(arg@, home.deep_view()),
{
    let a = text::trim(arg);
    if a.as_str().is_empty() {
        return (".".to_owned(), String::new());
    }
    proof {
        reveal_strlit("~/");
    }
    let e = if text::same(a.as_str(), "~") {
        home_text(home)
    } else if text::starts_with(a.as_str(), "~/") {
        text::cat3(
            home_text(home).as_str(),
            "/",
            text::trim_start_matches(a.as_str(), "~/").as_str(),
        )
    } else {
        a
    };
    if text::ends_with(e.as_str(), "/") {
        return (e, String::new());
    }
    let v = text::chars_of(e.as_str());
    match text::rfind(&v, '/') {
        Some(i) => {
            if i > 0 && i < v.len() {
                (text::slice_of(&v, 0, i), text::suffix_of(&v, i + 1))
            } else {
                (".".to_owned(), e)
            }
        },
        None => (".".to_owned(), e),
    }
}

/// The longest text that two texts both begin with.
pub open spec fn common(a: Seq<char>, b: Seq<char>) -> Seq<char>
    decreases a.len(),
{
    if a.len() == 0 || b.len() == 0 || a[0] != b[0] {
        Seq::empty()
    } else {
        seq![a[0]] + common(a.drop_first(), b.drop_first())
    }
}

/// The longest text that all members of a list begin with.
pub open spec fn common_prefix(l: Seq<Seq<char>>) -> Seq<char>
    decreases l.len(),
{
    if l.len() == 0 {
        Seq::empty()
    } else if l.len() == 1 {
        l[0]
    } else {
        common(common_prefix(l.drop_last()), l.last())
    }
}

proof fn common_at(a: Seq<char>, b: Seq<char>, k: int)
    requires
        0 <= k <= a.len(),
        k <= b.len(),
        a.take(k) == b.take(k),
        k < a.len() && k < b.len() ==> a[k] != b[k],
    ensures
        common(a, b) == a.take(k),
    decreases k,
{
    if k > 0 {
        let a1 = a.drop_first();
        let b1 = b.drop_first();
        assert(a.take(k)[0] == a[0] && b.take(k)[0] == b[0]);
        assert(a1.take(k - 1) == a.take(k).drop_first());
        assert(b1.take(k - 1) == b.take(k).drop_first());
        assert(k < a.len() && k < b.len() ==> a1[k - 1] == a[k] && b1[k - 1] == b[k]);
        common_at(a1, b1, k - 1);
        assert(seq![a[0]] + a1.take(k - 1) == a.take(k));
    } else {
        assert(a.take(0) == Seq::<char>::empty());
    }
}

fn common_of(a: &str, b: &str) -> (r: String)
    ensures
        r@ == common(a@, b@),
{
    let x = text::chars_of(a);
    let y = text::chars_of(b);
    let mut k: usize = 0;
    while k < x.len() && k < y.len() && x[k] == y[k]
        invariant
            k <= x@.len(),
            k <= y@.len(),
            x@.take(k as int) == y@.take(k as int),
        decreases x@.len() - k,
    {
        assert(x@.take(k + 1) == x@.take(k as int).push(x@[k as int]));
        assert(y@.take(k + 1) == y@.take(k as int).push(y@[k as int]));
        k += 1;
    }
    proof {
        common_at(x@, y@, k as int);
    }
    text::slice_of(&x, 0, k)
}

/// The longest common prefix of some texts.
pub fn longest_common_prefix(items: &Vec<String>) -> (r: String)
    ensures
        r@ == common_prefix(items.deep_view()),
{
    if items.len() == 0 {
        return String::new();
    }
    let mut prefix: String = items[0].clone();
    let ghost l = items.deep_view();
    let mut i: usize = 1;
    assert(l.take(1)[0] == items@[0]@);
    while i < items.len()
        invariant
            1 <= i <= items@.len(),
            l == items.deep_view(),
            prefix@ == common_prefix(l.take(i as int)),
        decreases items@.len() - i,
    {
        assert(l.take(i + 1).drop_last() == l.take(i as int));
        assert(l[i as int] == items@[i as int]@);
        prefix = common_of(prefix.as_str(), items[i].as_str());
        i += 1;
    }
    assert(l.take(l.len() as int) == l);
    prefix
}

proof fn common_is_longest(a: Seq<char>, b: Seq<char>)
    ensures
        text::begins(a, common(a, b)),
        text::begins(b, common(a, b)),
        forall|p: Seq<char>|
            text::begins(a, p) && text::begins(b, p) ==> #[trigger] text::begins(common(a, b), p),
    decreases a.len(),
{
    if a.len() == 0 || b.len() == 0 || a[0] != b[0] {
        assert(a.subrange(0, 0) == Seq::<char>::empty());
        assert(b.subrange(0, 0) == Seq::<char>::empty());
        assert forall|p: Seq<char>| text::begins(a, p) && text::begins(b, p) implies
            #[trigger] text::begins(common(a, b), p) by {
            if p.len() > 0 {
                assert(a.subrange(0, p.len() as int)[0] == b.subrange(0, p.len() as int)[0]);
            }
            assert(common(a, b).subrange(0, 0) == p);
        }
    } else {
        let a1 = a.drop_first();
        let b1 = b.drop_first();
        let c1 = common(a1, b1);
        let c = common(a, b);
        common_is_longest(a1, b1);
        let n = c1.len() as int;
        assert(a.subrange(0, n + 1) == seq![a[0]] + a1.subrange(0, n));
        assert(b.subrange(0, n + 1) == seq![b[0]] + b1.subrange(0, n));
        assert forall|p: Seq<char>| text::begins(a, p) && text::begins(b, p) implies
            #[trigger] text::begins(c, p) by {
            let m = p.len() as int;
            if m > 0 {
                let p1 = p.drop_first();
                assert(a1.subrange(0, m - 1) == a.subrange(0, m).drop_first());
                assert(b1.subrange(0, m - 1) == b.subrange(0, m).drop_first());
                assert(text::begins(a1, p1) && text::begins(b1, p1));
                assert(text::begins(c1, p1));
                assert(a.subrange(0, m)[0] == a[0]);
                assert(c.subrange(0, m) == seq![a[0]] + c1.subrange(0, m - 1));
                assert(p == seq![p[0]] + p1);
            } else {
                assert(c.subrange(0, 0) == p);
            }
        }
    }
}

proof fn begins_transitive(s: Seq<char>, t: Seq<char>, u: Seq<char>)
    requires
        text::begins(s, t),
        text::begins(t, u),
    ensures
        text::begins(s, u),
{
    assert(s.subrange(0, u.len() as int) == s.subrange(0, t.len() as int).subrange(
        0,
        u.len() as int,
    ));
}

/// The common prefix begins every member, and whatever begins every member begins it.
pub proof fn common_prefix_is_longest(l: Seq<Seq<char>>)
    requires
        l.len() > 0,
    ensures
        forall|i: int| 0 <= i < l.len() ==> text::begins(#[trigger] l[i], common_prefix(l)),
        forall|p: Seq<char>|
            (forall|i: int| 0 <= i < l.len() ==> text::begins(#[trigger] l[i], p))
                ==> #[trigger] text::begins(common_prefix(l), p),
    decreases l.len(),
{
    if l.len() == 1 {
        assert(l[0].subrange(0, l[0].len() as int) == l[0]);
    } else {
        let m = l.drop_last();
        let q = common_prefix(m);
        let c = common_prefix(l);
        common_prefix_is_longest(m);
        common_is_longest(q, l.last());
        assert forall|i: int| 0 <= i < l.len() implies text::begins(#[trigger] l[i], c) by {
            if i < m.len() {
                assert(l[i] == m[i]);
                begins_transitive(l[i], q, c);
            }
        }
        assert forall|p: Seq<char>|
            (forall|i: int| 0 <= i < l.len() ==> text::begins(#[trigger] l[i], p)) implies
            #[trigger] text::begins(c, p) by {
            assert forall|i: int| 0 <= i < m.len() implies text::begins(#[trigger] m[i], p) by {
                assert(l[i] == m[i]);
            }
            assert(text::begins(q, p));
            assert(text::begins(l[l.len() - 1], p));
        }
    }
}

/// The names that remain of some path components when `.` and `..` are resolved.
pub open spec fn resolved(l: Seq<Seq<char>>) -> Seq<Seq<char>>
    decreases l.len(),
{
    if l.len() == 0 {
        l
    } else {
        let before = resolved(l.drop_last());
        let part = l.last();
        if part.len() == 0 || part == "."@ {
            before
        } else if part == ".."@ {
            if before.len() == 0 {
                before
            } else {
                before.drop_last()
            }
        } else {
            before.push(part)
        }
    }
}

/// A path without `.`, `..` and doubled slashes.
pub open spec fn simplified(p: Seq<char>) -> Seq<char> {
    let names = text::joined(resolved(text::parts(p, '/')), "/"@);
    if p.len() == 0 {
        "/"@
    } else if text::begins(p, "/"@) {
        "/"@ + names
    } else if names.len() == 0 {
        "/"@
    } else {
        names
    }
}

/// A very simple path normalization (`..`, `.`).
pub fn simplify_path(p: &str) -> (r: String)
    ensures
        r@ == simplified(p@),
{
    if p.is_empty() {
        return "/".to_owned();
    }
    proof {
        reveal_strlit("/");
    }
    let abs = text::starts_with(p, "/");
    let parts = text::split(p, '/');
    let mut stack: Vec<String> = Vec::new();
    let mut i: usize = 0;
    let ghost l = parts.deep_view();
    assert(stack.deep_view() == resolved(l.take(0)));
    while i < parts.len()
        invariant
            i <= parts@.len(),
            l == parts.deep_view(),
            stack.deep_view() == resolved(l.take(i as int)),
        decreases parts@.len() - i,
    {
        assert(l.take(i + 1).drop_last() == l.take(i as int));
        assert(l[i as int] == parts@[i as int]@);
        let ghost before = stack.deep_view();
        let part = parts[i].clone();
        if part.as_str().is_empty() || text::same(part.as_str(), ".") {
        } else if text::same(part.as_str(), "..") {
            if stack.len() > 0 {
                let _ = stack.pop();
                assert(stack.deep_view() == before.drop_last());
            }
        } else {
            stack.push(part);
            assert(stack.deep_view() == before.push(part@));
        }
        i += 1;
    }
    assert(l.take(l.len() as int) == l);
    let names = text::join(&stack, "/");
    if abs {
        text::cat("/", names.as_str())
    } else if names.as_str().is_empty() {
        "/".to_owned()
    } else {
        names
    }
}

/// A name in a path: not empty, without a slash, and neither `.` nor `..`.
pub open spec fn is_name(part: Seq<char>) -> bool {
    &&& part.len() > 0
    &&& part != "."@
    &&& part != ".."@
    &&& !part.contains('/')
}

pub open spec fn all_names(l: Seq<Seq<char>>) -> bool {
    forall|i: int| 0 <= i < l.len() ==> is_name(#[trigger] l[i])
}

proof fn resolved_to_names(l: Seq<Seq<char>>)
    requires
        forall|i: int| 0 <= i < l.len() ==> !(#[trigger] l[i]).contains('/'),
    ensures
        all_names(resolved(l)),
    decreases l.len(),
{
    if l.len() > 0 {
        let m = l.drop_last();
        assert forall|i: int| 0 <= i < m.len() implies !(#[trigger] m[i]).contains('/') by {
            assert(l[i] == m[i]);
        }
        resolved_to_names(m);
        assert(!l[l.len() - 1].contains('/'));
        assert forall|i: int| 0 <= i < resolved(l).len() implies is_name(
            #[trigger] resolved(l)[i],
        ) by {
            if i < resolved(m).len() {
                assert(resolved(l)[i] == resolved(m)[i]);
            }
        }
    }
}

proof fn names_stay(l: Seq<Seq<char>>, m: Seq<Seq<char>>)
    requires
        resolved(l).len() == 0,
        all_names(m),
    ensures
        resolved(l + m) == m,
    decreases m.len(),
{
    if m.len() == 0 {
        assert(l + m == l);
        assert(resolved(l) == m);
    } else {
        assert((l + m).drop_last() == l + m.drop_last());
        assert forall|i: int| 0 <= i < m.drop_last().len() implies is_name(
            #[trigger] m.drop_last()[i],
        ) by {
            assert(m[i] == m.drop_last()[i]);
        }
        names_stay(l, m.drop_last());
        assert(is_name(m[m.len() - 1]));
        assert(m.drop_last().push(m.last()) == m);
    }
}

/// What a simplified path is made of: names, behind a slash if the path is an absolute one.
pub proof fn simplified_has_names(p: Seq<char>)
    ensures
        all_names(resolved(text::parts(p, '/'))),
{
    text::parts_without_separator(p, '/');
    resolved_to_names(text::parts(p, '/'));
}

/// To simplify a path again changes nothing.
pub proof fn simplified_twice(p: Seq<char>)
    ensures
        simplified(simplified(p)) == simplified(p),
{
    reveal_strlit("/");
    let slash = "/"@;
    assert(slash == seq!['/']);
    let none = Seq::<char>::empty();
    let names = resolved(text::parts(p, '/'));
    let j = text::joined(names, slash);
    let q = simplified(p);
    simplified_has_names(p);
    let empties: Seq<Seq<char>> = Seq::empty();
    assert(resolved(empties) == empties);
    let one = seq![none];
    assert(one.drop_last() == empties);
    assert(resolved(one).len() == 0);
    assert(text::parts(none, '/') == one);
    if names.len() == 0 {
        assert(j == none);
        assert(slash + j == slash);
        assert(q == slash);
        text::parts_of_two(none, none, '/');
        assert(none + slash + none == slash);
        let two = one + one;
        assert(text::parts(slash, '/') == two);
        assert(two.drop_last() == one);
        assert(resolved(two).len() == 0);
        assert(resolved(two) == empties);
        assert(slash.subrange(0, 1) == slash);
        assert(slash + none == slash);
    } else {
        assert forall|i: int| 0 <= i < names.len() implies !(#[trigger] names[i]).contains('/') by {
            assert(is_name(names[i]));
        }
        text::parts_of_joined(names, '/');
        text::joined_first(names, slash);
        assert(is_name(names[0]));
        assert(names[0].contains(names[0][0]));
        if text::begins(p, slash) {
            text::parts_of_two(none, j, '/');
            assert(none + slash + j == q);
            names_stay(one, names);
            assert(q.subrange(0, 1) == slash);
        } else {
            assert(q == j);
            names_stay(empties, names);
            assert(empties + names == names);
            assert(q.subrange(0, 1)[0] != '/');
        }
    }
}

/* ---------------- the popup ---------------- */

#[derive(Clone, Copy, Debug, PartialEq, Eq, Structural)]
pub enum ShellKind {
    Sh,
    Bash,
}

/// Why a script is run in the container.
pub enum ShellJob {
    /// To see whether a directory can be entered.
    Cd { arg: String, target: String },
    /// For its output.
    Run,
    /// To list the directories in `base` whose names begin with `pattern`.
    Complete { base: String, pattern: String },
}

/// What a key asks of the owner of the popup.
pub enum ShellEvent {
    Nothing,
    Close,
    /// Run `script` in the container, and hand the result to [`ShellPopup::finish`].
    Exec { job: ShellJob, script: String },
}

#[verifier::ext_equal]
pub enum ShellJobView {
    Cd { arg: Seq<char>, target: Seq<char> },
    Run,
    Complete { base: Seq<char>, pattern: Seq<char> },
}

#[verifier::ext_equal]
pub enum ShellEventView {
    Nothing,
    Close,
    Exec { job: ShellJobView, script: Seq<char> },
}

impl View for ShellJob {
    type V = ShellJobView;

    open spec fn view(&self) -> ShellJobView {
        match self {
            ShellJob::Cd { arg, target } => ShellJobView::Cd { arg: arg@, target: target@ },
            ShellJob::Run => ShellJobView::Run,
            ShellJob::Complete { base, pattern } => ShellJobView::Complete {
                base: base@,
                pattern: pattern@,
            },
        }
    }
}

impl View for ShellEvent {
    type V = ShellEventView;

    open spec fn view(&self) -> ShellEventView {
        match self {
            ShellEvent::Nothing => ShellEventView::Nothing,
            ShellEvent::Close => ShellEventView::Close,
            ShellEvent::Exec { job, script } => ShellEventView::Exec {
                job: job@,
                script: script@,
            },
        }
    }
}

pub struct ShellPopup {
    pub id: String,
    pub name: String,
    pub shell: ShellKind,
    pub cwd: String,
    pub prev_cwd: Option<String>,
    pub home: Option<String>,
    pub input: String,
    pub history: Vec<String>,
    pub hist_idx: Option<usize>,
    pub lines: Vec<String>,
    pub running: bool,
    pub scroll: usize,
    pub completions: Vec<String>,
    /// The directory that the suggestions stand in.
    pub comp_base: String,
    /// The suggestion that comes next.
    pub comp_idx: usize,
}

#[verifier::ext_equal]
pub struct ShellView {
    pub id: Seq<char>,
    pub name: Seq<char>,
    pub shell: ShellKind,
    pub cwd: Seq<char>,
    pub prev_cwd: Option<Seq<char>>,
    pub home: Option<Seq<char>>,
    pub input: Seq<char>,
    pub history: Seq<Seq<char>>,
    pub hist_idx: Option<usize>,
    pub lines: Seq<Seq<char>>,
    pub running: bool,
    pub scroll: usize,
    pub completions: Seq<Seq<char>>,
    pub comp_base: Seq<char>,
    pub comp_idx: usize,
}

impl View for ShellPopup {
    type V = ShellView;

    open spec fn view(&self) -> ShellView {
        ShellView {
            id: self.id@,
            name: self.name@,
            shell: self.shell,
            cwd: self.cwd@,
            prev_cwd: self.prev_cwd.deep_view(),
            home: self.home.deep_view(),
            input: self.input@,
            history: self.history.deep_view(),
            hist_idx: self.hist_idx,
            lines: self.lines.deep_view(),
            running: self.running,
            scroll: self.scroll,
            completions: self.completions.deep_view(),
            comp_base: self.comp_base@,
            comp_idx: self.comp_idx,
        }
    }
}

pub open spec fn shell_tip() -> Seq<char> {
    "Tips: type `help` for help, `clear` to clear, `exit` to close; `cd` persists. (New: cd, cd -, cd ~, Tab for autocomplete)"@
}

pub open spec fn shell_help() -> Seq<Seq<char>> {
    seq![
        "Builtins:"@,
        "  • cd <dir> (persists) | cd - | cd ~"@,
        "  • clear, help, exit"@,
        "Notes:"@,
        "  • Line-by-line shell (no ncurses/full-screen apps)"@,
        "  • History ↑/↓, scroll PgUp/PgDn, Tab autocomplete on cd"@,
    ]
}

/// The line that tells where the shell is.
pub open spec fn cwd_line(cwd: Seq<char>) -> Seq<char> {
    "(cwd -> "@ + cwd + ")"@
}

/// The name of an interpreter.
pub open spec fn interpreter(kind: ShellKind) -> Seq<char> {
    match kind {
        ShellKind::Sh => "sh"@,
        ShellKind::Bash => "bash"@,
    }
}

/// The arguments with which `docker` runs a script in a container.
pub open spec fn docker_exec(id: Seq<char>, kind: ShellKind, script: Seq<char>) -> Seq<Seq<char>> {
    seq!["exec"@, "-i"@, id, interpreter(kind), "-lc"@, script]
}

/// The directories that a listing names: its lines, trimmed, without empty ones and without a
/// leading `./`, in order.
pub open spec fn listed(out: Seq<char>) -> Seq<Seq<char>> {
    text::sorted_texts(
        without_dots(text::nonempty(trimmed_all(text::lines_of(out)))),
    )
}

pub open spec fn trimmed_all(l: Seq<Seq<char>>) -> Seq<Seq<char>> {
    Seq::new(l.len(), |i: int| text::trimmed(l[i]))
}

pub open spec fn without_dots(l: Seq<Seq<char>>) -> Seq<Seq<char>> {
    Seq::new(l.len(), |i: int| text::without_leading(l[i], "./"@))
}

/// The script that lists the directories in `base` whose names begin with `pattern`.
pub open spec fn listing_script(cwd: Seq<char>, base: Seq<char>, pattern: Seq<char>) -> Seq<char> {
    "cd "@ + escaped(cwd) + " 2>/dev/null || exit 0; cd "@ + escaped(base)
        + " 2>/dev/null || exit 0; for d in "@ + escaped(pattern)
        + "*; do [ -d \"$d\" ] && printf '%s\\n' \"$d\"; done"@
}

/// The command that enters a directory.
pub open spec fn cd_command(base: Seq<char>, name: Seq<char>) -> Seq<char> {
    "cd "@ + text::without_leading(joined_path(base, name), "./"@)
}

impl ShellView {
    pub open spec fn fresh(id: Seq<char>, name: Seq<char>) -> ShellView {
        ShellView {
            id,
            name,
            shell: ShellKind::Sh,
            cwd: "/"@,
            prev_cwd: None,
            home: None,
            input: Seq::empty(),
            history: Seq::empty(),
            hist_idx: None,
            lines: seq![shell_tip()],
            running: false,
            scroll: 0,
            completions: Seq::empty(),
            comp_base: Seq::empty(),
            comp_idx: 0,
        }
    }

    pub open spec fn say(self, line: Seq<char>) -> ShellView {
        ShellView { lines: self.lines.push(line), ..self }
    }

    /// The shell moves to a directory, and says so.
    pub open spec fn moved(self, target: Seq<char>) -> ShellView {
        ShellView { prev_cwd: Some(self.cwd), cwd: target, ..self }.say(cwd_line(target))
    }

    /// The directory that the argument of `cd` names.
    pub open spec fn target(self, arg: Seq<char>) -> Seq<char> {
        simplified(
            if text::begins(arg, "/"@) {
                arg
            } else if arg == "-"@ {
                match self.prev_cwd {
                    Some(p) => p,
                    None => self.cwd,
                }
            } else if arg == "~"@ {
                home_or_root(self.home)
            } else if self.cwd == "/"@ {
                "/"@ + arg
            } else {
                self.cwd + "/"@ + arg
            },
        )
    }

    /// A command, run in the current directory.
    pub open spec fn command(self, line: Seq<char>) -> Seq<char> {
        if self.cwd == "/"@ {
            line
        } else {
            "cd "@ + escaped(self.cwd) + " && "@ + line
        }
    }

    pub open spec fn prompt(self) -> Seq<char> {
        self.name + ":"@ + self.cwd + "$ "@
    }

    /// A line is carried out.
    pub open spec fn exec_line(self, raw: Seq<char>) -> (ShellView, ShellEventView) {
        let line = text::trimmed(raw);
        if line.len() == 0 {
            (self, ShellEventView::Nothing)
        } else if line == "exit"@ {
            (self, ShellEventView::Close)
        } else if line == "clear"@ {
            (ShellView { lines: Seq::empty(), ..self }, ShellEventView::Nothing)
        } else if line == "help"@ {
            (ShellView { lines: self.lines + shell_help(), ..self }, ShellEventView::Nothing)
        } else if line == "cd -"@ {
            let s = match self.prev_cwd {
                Some(p) => self.moved(p),
                None => self.say("cd: previous directory not set"@).say(cwd_line(self.cwd)),
            };
            (s, ShellEventView::Nothing)
        } else if line == "cd ~"@ || line == "cd"@ {
            (self.moved(home_or_root(self.home)), ShellEventView::Nothing)
        } else if text::begins(line, "cd "@) {
            let arg = text::trimmed(line.skip("cd "@.len() as int));
            let target = self.target(arg);
            (
                self,
                ShellEventView::Exec {
                    job: ShellJobView::Cd { arg, target },
                    script: "cd "@ + escaped(target) + " && pwd"@,
                },
            )
        } else {
            (
                ShellView { running: true, ..self.say(self.prompt() + line) },
                ShellEventView::Exec { job: ShellJobView::Run, script: self.command(line) },
            )
        }
    }

    /// What a script that was run for `job` gave.
    pub open spec fn finish(self, job: ShellJobView, res: Result<Seq<char>, Seq<char>>) -> ShellView {
        match job {
            ShellJobView::Cd { arg, target } => match res {
                Ok(_) => self.moved(target),
                Err(_) => self.say("cd: "@ + arg + ": no such file or directory"@),
            },
            ShellJobView::Run => {
                let s = ShellView { running: false, ..self };
                match res {
                    Ok(out) => if out.len() == 0 {
                        s
                    } else {
                        ShellView {
                            lines: s.lines + text::parts(text::unix_lines(out), '\n'),
                            ..s
                        }
                    },
                    Err(e) => s.say("error: "@ + e),
                }
            },
            ShellJobView::Complete { base, pattern } => self.completed(
                base,
                pattern,
                listed(
                    match res {
                        Ok(out) => out,
                        Err(_) => Seq::empty(),
                    },
                ),
            ),
        }
    }

    /// The directories that could be meant are known.
    pub open spec fn completed(
        self,
        base: Seq<char>,
        pattern: Seq<char>,
        items: Seq<Seq<char>>,
    ) -> ShellView {
        let prefix = common_prefix(items);
        if items.len() == 0 {
            self
        } else if items.len() == 1 {
            ShellView { input: cd_command(base, items[0]) + "/"@, ..self }
        } else if prefix.len() > 0 && prefix != pattern {
            ShellView {
                input: cd_command(base, prefix),
                completions: items,
                comp_base: base,
                comp_idx: 0,
                ..self
            }.say("> "@ + text::joined(items, "  "@))
        } else {
            ShellView {
                input: cd_command(base, items[0]) + "/"@,
                completions: items,
                comp_base: base,
                comp_idx: 1,
                ..self
            }.say("> "@ + text::joined(items, "  "@))
        }
    }

    /// The argument of the `cd` that is being typed.
    pub open spec fn typed_argument(self) -> Seq<char> {
        let s = text::drop_white_end(self.input);
        if text::begins(s, "cd "@) {
            text::trimmed(s.skip("cd "@.len() as int))
        } else {
            Seq::empty()
        }
    }

    /// The tab key: the next suggestion in place of the one before, or a request for some.
    pub open spec fn tab(self) -> (ShellView, ShellEventView) {
        if !text::begins(text::drop_white_end(self.input), "cd "@) {
            (self, ShellEventView::Nothing)
        } else {
            let (base, pattern) = base_and_pattern(self.typed_argument(), self.home);
            let n = self.completions.len();
            if n > 0 {
                let k = self.comp_idx as nat % n;
                (
                    ShellView {
                        input: cd_command(self.comp_base, self.completions[k as int]) + "/"@,
                        comp_idx: (if k + 1 == n {
                            0
                        } else {
                            k + 1
                        }) as usize,
                        ..self
                    },
                    ShellEventView::Nothing,
                )
            } else {
                (
                    self,
                    ShellEventView::Exec {
                        job: ShellJobView::Complete { base, pattern },
                        script: listing_script(self.cwd, base, pattern),
                    },
                )
            }
        }
    }

    /// The back-tab key: the suggestion before the one that Tab would put.
    pub open spec fn back_tab(self) -> ShellView {
        let n = self.completions.len();
        if n == 0 {
            self
        } else {
            let k = (if self.comp_idx == 0 {
                n - 1
            } else {
                self.comp_idx - 1
            }) as usize;
            ShellView {
                input: cd_command(self.comp_base, self.completions[k as int % n as int]) + "/"@,
                comp_idx: k,
                ..self
            }
        }
    }

    pub open spec fn without_completions(self) -> ShellView {
        ShellView { completions: Seq::empty(), comp_base: Seq::empty(), comp_idx: 0, ..self }
    }

    pub open spec fn with_input(self, input: Seq<char>) -> ShellView {
        ShellView { input, ..self.without_completions() }
    }

    /// The line that was typed goes into the history, unless it is empty or stands there last.
    pub open spec fn remembered(self) -> ShellView {
        if self.input.len() == 0 {
            self
        } else if self.history.len() > 0 && self.history.last() == self.input {
            ShellView { hist_idx: None, ..self }
        } else {
            ShellView { history: self.history.push(self.input), hist_idx: None, ..self }
        }
    }

    /// The up key: an older line of the history.
    pub open spec fn up(self) -> ShellView {
        let s = self.without_completions();
        let n = self.history.len();
        if n == 0 {
            s
        } else {
            let k = (match self.hist_idx {
                None => n - 1,
                Some(i) => if i == 0 {
                    0
                } else {
                    i - 1
                },
            }) as usize;
            ShellView {
                hist_idx: Some(k),
                input: if k < n {
                    self.history[k as int]
                } else {
                    self.input
                },
                ..s
            }
        }
    }

    /// The down key: a newer line of the history, and behind the newest an empty one.
    pub open spec fn down(self) -> ShellView {
        let s = self.without_completions();
        let n = self.history.len();
        if n == 0 {
            s
        } else {
            match self.hist_idx {
                None => s,
                Some(i) => if i + 1 < n {
                    ShellView {
                        hist_idx: Some((i + 1) as usize),
                        input: self.history[i + 1],
                        ..s
                    }
                } else {
                    ShellView { hist_idx: None, input: Seq::empty(), ..s }
                },
            }
        }
    }

    /// The page-up key: five lines up, as far as there are any.
    pub open spec fn page_up(self) -> ShellView {
        let top = if self.lines.len() == 0 {
            0
        } else {
            self.lines.len() - 1
        };
        ShellView {
            scroll: (if self.scroll + 5 < top {
                self.scroll + 5
            } else {
                top
            }) as usize,
            ..self
        }
    }

    pub open spec fn page_down(self) -> ShellView {
        ShellView {
            scroll: (if self.scroll < 5 {
                0
            } else {
                self.scroll - 5
            }) as usize,
            ..self
        }
    }

    /// A key is pressed.
    pub open spec fn on_key(self, key: KeyEvent) -> (ShellView, ShellEventView) {
        let none = ShellEventView::Nothing;
        match key.code {
            KeyCode::Esc => (self, ShellEventView::Close),
            KeyCode::Enter => self.remembered().with_input(Seq::empty()).exec_line(self.input),
            KeyCode::Backspace => (self.with_input(text::popped(self.input)), none),
            KeyCode::Char(c) => if c == 'q' {
                (self, ShellEventView::Close)
            } else if c == 'u' && key.control {
                (self.with_input(Seq::empty()), none)
            } else if c == 'l' && key.control {
                (ShellView { lines: Seq::empty(), ..self }, none)
            } else {
                (self.with_input(self.input.push(c)), none)
            },
            KeyCode::Up => (self.up(), none),
            KeyCode::Down => (self.down(), none),
            KeyCode::PageUp => (self.page_up(), none),
            KeyCode::PageDown => (self.page_down(), none),
            KeyCode::Tab => self.tab(),
            KeyCode::BackTab => (self.back_tab(), none),
            _ => (self, none),
        }
    }

    /// The lines that are shown where there is room for `max` of them.
    pub open spec fn shown(self, max: int) -> (int, int) {
        let n = self.lines.len() as int;
        let end = if self.scroll < n {
            n - self.scroll
        } else {
            0
        };
        let start = if max + self.scroll < n {
            n - (max + self.scroll)
        } else {
            0
        };
        (start, end)
    }
}

/// After `cd -` and another `cd -`, the shell is where it was, and so is the directory before.
pub proof fn cd_back_and_forth(s: ShellView)
    requires
        s.prev_cwd is Some,
    ensures
        ({
            let once = s.exec_line("cd -"@).0;
            let twice = once.exec_line("cd -"@).0;
            &&& once.cwd == s.prev_cwd->0
            &&& once.prev_cwd == Some(s.cwd)
            &&& twice.cwd == s.cwd
            &&& twice.prev_cwd == s.prev_cwd
        }),
{
    reveal_strlit("cd -");
    reveal_strlit("exit");
    reveal_strlit("clear");
    reveal_strlit("help");
    let l = "cd -"@;
    assert(text::drop_white_start(l) == l);
    assert(text::trimmed(l) == l);
    assert("exit"@[0] == 'e' && "help"@[0] == 'h' && "clear"@.len() == 5);
}

/// The working directory persists: once a `cd` has led somewhere, commands are run there, and
/// neither a command nor what it gives nor a completion leads away again.
pub proof fn working_directory_persists(
    s: ShellView,
    arg: Seq<char>,
    target: Seq<char>,
    out: Seq<char>,
    line: Seq<char>,
    res: Result<Seq<char>, Seq<char>>,
    base: Seq<char>,
    pattern: Seq<char>,
)
    ensures
        ({
            let there = s.finish(ShellJobView::Cd { arg, target }, Ok(out));
            let (asked, ev) = there.exec_line(line);
            &&& there.cwd == target
            &&& target != "/"@ ==> there.command(line) == "cd "@ + escaped(target) + " && "@ + line
            &&& ev matches ShellEventView::Exec { job: ShellJobView::Run, script } ==> {
                &&& script == there.command(text::trimmed(line))
                &&& asked.cwd == target
            }
            &&& there.finish(ShellJobView::Run, res).cwd == target
            &&& there.finish(ShellJobView::Complete { base, pattern }, res).cwd == target
        }),
{
}

/// A `cd` to a directory that the container cannot enter leads nowhere, and says so.
pub proof fn failed_cd_stays(
    s: ShellView,
    arg: Seq<char>,
    target: Seq<char>,
    res: Result<CommandOutput, String>,
)
    requires
        res matches Ok(out) ==> !out.success,
    ensures
        ({
            let job = ShellJobView::Cd { arg, target };
            let there = s.finish(job, script_outcome(job, res));
            &&& there.cwd == s.cwd
            &&& there.prev_cwd == s.prev_cwd
            &&& there.lines == s.lines.push("cd: "@ + arg + ": no such file or directory"@)
        }),
{
}

proof fn suggestion_is_a_cd(base: Seq<char>, name: Seq<char>)
    ensures
        text::begins(text::drop_white_end(cd_command(base, name) + "/"@), "cd "@),
{
    reveal_strlit("cd ");
    reveal_strlit("/");
    let s = cd_command(base, name) + "/"@;
    assert(s.last() == '/');
    assert(s.subrange(0, 3) == "cd "@);
}

/// While there are suggestions, each Tab puts the next of them in place of the one before, round
/// and round, and all of them stand in the directory that they were found in.
pub proof fn tab_goes_round(s: ShellView)
    requires
        s.completions.len() > 0,
        s.comp_idx < s.completions.len() <= usize::MAX,
        text::begins(text::drop_white_end(s.input), "cd "@),
    ensures
        ({
            let n = s.completions.len();
            let k = s.comp_idx as nat;
            let (once, ev) = s.tab();
            let (twice, ev2) = once.tab();
            &&& ev == ShellEventView::Nothing && ev2 == ShellEventView::Nothing
            &&& once.input == cd_command(s.comp_base, s.completions[k as int]) + "/"@
            &&& twice.input == cd_command(s.comp_base, s.completions[((k + 1) % n) as int]) + "/"@
            &&& twice.completions == s.completions && twice.comp_base == s.comp_base
            &&& twice.comp_idx < n
        }),
{
    let n = s.completions.len();
    let k = s.comp_idx as nat;
    suggestion_is_a_cd(s.comp_base, s.completions[k as int]);
    assert(k % n == k) by (nonlinear_arith)
        requires
            k < n,
    ;
    if k + 1 < n {
        assert((k + 1) % n == k + 1) by (nonlinear_arith)
            requires
                k + 1 < n,
        ;
    } else {
        assert(n % n == 0 && 0nat % n == 0) by (nonlinear_arith)
            requires
                n > 0,
        ;
    }
}

/// Where the names share no more than what was typed, the first Tab puts the first of them, and the
/// next one the second.
pub proof fn first_suggestion_then_second(
    s: ShellView,
    base: Seq<char>,
    pattern: Seq<char>,
    items: Seq<Seq<char>>,
)
    requires
        1 < items.len() <= usize::MAX,
        common_prefix(items) == pattern || common_prefix(items).len() == 0,
    ensures
        ({
            let first = s.completed(base, pattern, items);
            &&& first.input == cd_command(base, items[0]) + "/"@
            &&& first.tab().0.input == cd_command(base, items[1]) + "/"@
        }),
{
    suggestion_is_a_cd(base, items[0]);
    tab_goes_round(s.completed(base, pattern, items));
}

/// A line that was recalled from the history is one of its lines.
pub proof fn recalled_from_history(s: ShellView)
    requires
        s.history.len() > 0,
        s.hist_idx matches Some(i) ==> i < s.history.len(),
        s.history.len() <= usize::MAX,
    ensures
        s.history.contains(s.up().input),
        s.up().hist_idx matches Some(i) && i < s.history.len() && s.up().input == s.history[i as int],
        s.down().hist_idx matches Some(i) ==> i < s.history.len() && s.down().input
            == s.history[i as int],
{
}

/// What a script that was run for `job` came to. Of most scripts only what they wrote counts; but
/// one that tries a directory has to succeed.
pub open spec fn script_outcome(job: ShellJobView, res: Result<CommandOutput, String>) -> Result<
    Seq<char>,
    Seq<char>,
> {
    match res {
        Ok(out) => if job is Cd && !out.success {
            Err(out.all_text())
        } else {
            Ok(out.all_text())
        },
        Err(e) => Err(e@),
    }
}

/// What a script that was run for `job` came to.
pub fn script_result(job: &ShellJob, res: Result<CommandOutput, String>) -> (r: Result<
    String,
    String,
>)
    ensures
        result_view(r) == script_outcome(job@, res),
{
    match res {
        Ok(out) => {
            let must_succeed = match job {
                ShellJob::Cd { .. } => true,
                _ => false,
            };
            if must_succeed && !out.success {
                Err(out.text())
            } else {
                Ok(out.text())
            }
        },
        Err(e) => Err(e),
    }
}

/// The result of a script, as texts.
pub open spec fn result_view(res: Result<String, String>) -> Result<Seq<char>, Seq<char>> {
    match res {
        Ok(s) => Ok(s@),
        Err(e) => Err(e@),
    }
}

fn cwd_text(cwd: &str) -> (r: String)
    ensures
        r@ == cwd_line(cwd@),
{
    text::cat3("(cwd -> ", cwd, ")")
}

fn cd_text(base: &str, name: &str) -> (r: String)
    ensures
        r@ == cd_command(base@, name@),
{
    proof {
        reveal_strlit("./");
    }
    let path = join_base_name(base, name);
    text::cat("cd ", text::trim_start_matches(path.as_str(), "./").as_str())
}

fn cd_dir_text(base: &str, name: &str) -> (r: String)
    ensures
        r@ == cd_command(base@, name@) + "/"@,
{
    text::cat(cd_text(base, name).as_str(), "/")
}

/// The directories that a listing names.
pub fn listed_items(out: &str) -> (r: Vec<String>)
    ensures
        r.deep_view() == listed(out@),
{
    proof {
        reveal_strlit("./");
    }
    let lines = text::lines(out);
    let ghost ls = lines.deep_view();
    let mut items: Vec<String> = Vec::new();
    let mut i: usize = 0;
    let ghost t = trimmed_all(ls);
    assert(t.take(0) == Seq::<Seq<char>>::empty());
    assert(items.deep_view() == without_dots(text::nonempty(t.take(0))));
    while i < lines.len()
        invariant
            i <= lines@.len(),
            ls == lines.deep_view(),
            t == trimmed_all(ls),
            "./"@.len() > 0,
            items.deep_view() == without_dots(text::nonempty(t.take(i as int))),
        decreases lines@.len() - i,
    {
        let x = text::trim(lines[i].as_str());
        assert(t[i as int] == x@) by {
            assert(ls[i as int] == lines@[i as int]@);
        }
        assert(t.take(i + 1).drop_last() == t.take(i as int));
        let ghost before = text::nonempty(t.take(i as int));
        if !x.as_str().is_empty() {
            let y = text::trim_start_matches(x.as_str(), "./");
            text::push_text(&mut items, y);
            assert(without_dots(before.push(x@)) == without_dots(before).push(y@));
        }
        i += 1;
    }
    assert(t.take(t.len() as int) == t);
    text::sort_texts(&items)
}

impl ShellPopup {
    pub fn new(id: String, name: String) -> (r: ShellPopup)
        ensures
            r@ == ShellView::fresh(id@, name@),
    {
        let mut lines: Vec<String> = Vec::new();
        text::push_text(
            &mut lines,
            "Tips: type `help` for help, `clear` to clear, `exit` to close; `cd` persists. (New: cd, cd -, cd ~, Tab for autocomplete)".to_owned(),
        );
        ShellPopup {
            id,
            name,
            shell: ShellKind::Sh,
            cwd: "/".to_owned(),
            prev_cwd: None,
            home: None,
            input: String::new(),
            history: Vec::new(),
            hist_idx: None,
            lines,
            running: false,
            scroll: 0,
            completions: Vec::new(),
            comp_base: String::new(),
            comp_idx: 0,
        }
    }

    fn say(&mut self, line: String)
        ensures
            final(self)@ == old(self)@.say(line@),
    {
        text::push_text(&mut self.lines, line);
    }

    fn move_to(&mut self, target: String)
        ensures
            final(self)@ == old(self)@.moved(target@),
    {
        let line = cwd_text(target.as_str());
        let mut cwd: String = target;
        core::mem::swap(&mut cwd, &mut self.cwd);
        self.prev_cwd = Some(cwd);
        self.say(line);
    }

    fn target(&self, arg: &str) -> (r: String)
        ensures
            r@ == self@.target(arg@),
    {
        let p = if text::starts_with(arg, "/") {
            arg.to_owned()
        } else if text::same(arg, "-") {
            match &self.prev_cwd {
                Some(p) => p.clone(),
                None => self.cwd.clone(),
            }
        } else if text::same(arg, "~") {
            home_text(&self.home)
        } else if text::same(self.cwd.as_str(), "/") {
            text::cat("/", arg)
        } else {
            text::cat3(self.cwd.as_str(), "/", arg)
        };
        simplify_path(p.as_str())
    }

    fn command(&self, line: &str) -> (r: String)
        ensures
            r@ == self@.command(line@),
    {
        if text::same(self.cwd.as_str(), "/") {
            line.to_owned()
        } else {
            let mut s = text::cat3("cd ", escape_for_shell(self.cwd.as_str()).as_str(), " && ");
            s.append(line);
            s
        }
    }

    /// What stands before the line that is being typed.
    pub fn prompt(&self) -> (r: String)
        ensures
            r@ == self@.prompt(),
    {
        let mut s = text::cat3(self.name.as_str(), ":", self.cwd.as_str());
        s.append("$ ");
        s
    }

    /// The arguments with which `docker` runs a script in this container.
    pub fn exec_args(&self, script: &str) -> (r: Vec<String>)
        ensures
            r.deep_view() == docker_exec(self@.id, self@.shell, script@),
    {
        exec_args_with(self.id.as_str(), self.shell, script)
    }

    fn say_help(&mut self)
        ensures
            final(self)@ == (ShellView { lines: old(self)@.lines + shell_help(), ..old(self)@ }),
    {
        self.say("Builtins:".to_owned());
        self.say("  • cd <dir> (persists) | cd - | cd ~".to_owned());
        self.say("  • clear, help, exit".to_owned());
        self.say("Notes:".to_owned());
        self.say("  • Line-by-line shell (no ncurses/full-screen apps)".to_owned());
        self.say("  • History ↑/↓, scroll PgUp/PgDn, Tab autocomplete on cd".to_owned());
        assert(self@.lines == old(self)@.lines + shell_help());
    }

    /// Carries out a line. What needs the container comes back as a request.
    pub fn exec_line(&mut self, raw: &str) -> (r: ShellEvent)
        ensures
            (final(self)@, r@) == old(self)@.exec_line(raw@),
    {
        let trimmed = text::trim(raw);
        let line = trimmed.as_str();
        if line.is_empty() {
            return ShellEvent::Nothing;
        }
        if text::same(line, "exit") {
            return ShellEvent::Close;
        }
        if text::same(line, "clear") {
            self.lines = Vec::new();
            return ShellEvent::Nothing;
        }
        if text::same(line, "help") {
            self.say_help();
            return ShellEvent::Nothing;
        }
        if text::same(line, "cd -") {
            match self.prev_cwd.take() {
                Some(p) => self.move_to(p),
                None => {
                    self.say("cd: previous directory not set".to_owned());
                    let l = cwd_text(self.cwd.as_str());
                    self.say(l);
                },
            }
            return ShellEvent::Nothing;
        }
        if text::same(line, "cd ~") || text::same(line, "cd") {
            let target = home_text(&self.home);
            self.move_to(target);
            return ShellEvent::Nothing;
        }
        match text::strip_prefix(line, "cd ") {
            Some(rest) => {
                let arg = text::trim(rest.as_str());
                let target = self.target(arg.as_str());
                let script = text::cat3(
                    "cd ",
                    escape_for_shell(target.as_str()).as_str(),
                    " && pwd",
                );
                ShellEvent::Exec { job: ShellJob::Cd { arg, target }, script }
            },
            None => {
                let script = self.command(line);
                let said = text::cat(self.prompt().as_str(), line);
                self.say(said);
                self.running = true;
                ShellEvent::Exec { job: ShellJob::Run, script }
            },
        }
    }

    /// Takes what a script that a key asked for came to.
    pub fn finish(&mut self, job: ShellJob, res: Result<CommandOutput, String>)
        ensures
            final(self)@ == old(self)@.finish(job@, script_outcome(job@, res)),
    {
        let res = script_result(&job, res);
        match job {
            ShellJob::Cd { arg, target } => {
                match res {
                    Ok(_) => self.move_to(target),
                    Err(_) => {
                        let l = text::cat3("cd: ", arg.as_str(), ": no such file or directory");
                        self.say(l);
                    },
                }
            },
            ShellJob::Run => {
                self.running = false;
                match res {
                    Ok(out) => {
                        if !out.as_str().is_empty() {
                            let unix = text::unix_newlines(out.as_str());
                            let parts = text::split(unix.as_str(), '\n');
                            self.say_all(&parts);
                        }
                    },
                    Err(e) => {
                        let l = text::cat("error: ", e.as_str());
                        self.say(l);
                    },
                }
            },
            ShellJob::Complete { base, pattern } => {
                let out = match res {
                    Ok(s) => s,
                    Err(_) => String::new(),
                };
                let items = listed_items(out.as_str());
                self.complete(base.as_str(), pattern.as_str(), items);
            },
        }
    }

    fn say_all(&mut self, l: &Vec<String>)
        ensures
            final(self)@ == (ShellView {
                lines: old(self)@.lines + l.deep_view(),
                ..old(self)@
            }),
    {
        let mut i: usize = 0;
        let ghost lv = l.deep_view();
        let ghost before = self@;
        assert(before.lines + lv.take(0) == before.lines);
        while i < l.len()
            invariant
                i <= l@.len(),
                lv == l.deep_view(),
                self@ == (ShellView { lines: before.lines + lv.take(i as int), ..before }),
            decreases l@.len() - i,
        {
            assert(lv[i as int] == l@[i as int]@);
            assert(lv.take(i + 1) == lv.take(i as int).push(lv[i as int]));
            self.say(l[i].clone());
            assert(self@.lines == before.lines + lv.take(i + 1));
            i += 1;
        }
        assert(lv.take(lv.len() as int) == lv);
    }

    /// Takes the directories that could be meant.
    pub fn complete(&mut self, base: &str, pattern: &str, items: Vec<String>)
        ensures
            final(self)@ == old(self)@.completed(base@, pattern@, items.deep_view()),
    {
        let ghost iv = items.deep_view();
        if items.len() == 0 {
            return;
        }
        assert(iv[0] == items@[0]@);
        if items.len() == 1 {
            self.input = cd_dir_text(base, items[0].as_str());
            return;
        }
        let prefix = longest_common_prefix(&items);
        let list = text::cat("> ", text::join(&items, "  ").as_str());
        if !prefix.as_str().is_empty() && !text::same(prefix.as_str(), pattern) {
            self.input = cd_text(base, prefix.as_str());
            self.completions = items;
            self.comp_base = base.to_owned();
            self.comp_idx = 0;
        } else {
            self.input = cd_dir_text(base, items[0].as_str());
            self.completions = items;
            self.comp_base = base.to_owned();
            self.comp_idx = 1;
        }
        self.say(list);
    }

    fn typed_argument(&self) -> (r: String)
        ensures
            r@ == self@.typed_argument(),
    {
        let s = text::trim_end(self.input.as_str());
        match text::strip_prefix(s.as_str(), "cd ") {
            Some(rest) => text::trim(rest.as_str()),
            None => String::new(),
        }
    }

    /// The tab key: cycles through the suggestions, or asks for some.
    pub fn handle_tab_completion(&mut self) -> (r: ShellEvent)
        ensures
            (final(self)@, r@) == old(self)@.tab(),
    {
        let s = text::trim_end(self.input.as_str());
        if !text::starts_with(s.as_str(), "cd ") {
            return ShellEvent::Nothing;
        }
        let n: usize = self.completions.len();
        if n > 0 {
            let k: usize = self.comp_idx % n;
            assert(self@.completions[k as int] == self.completions@[k as int]@);
            self.input = cd_dir_text(self.comp_base.as_str(), self.completions[k].as_str());
            self.comp_idx = if k + 1 == n {
                0
            } else {
                k + 1
            };
            return ShellEvent::Nothing;
        }
        let arg = self.typed_argument();
        let (base, pattern) = split_base_and_pattern(arg.as_str(), &self.home);
        let mut script = text::cat3(
            "cd ",
            escape_for_shell(self.cwd.as_str()).as_str(),
            " 2>/dev/null || exit 0; cd ",
        );
        script.append(escape_for_shell(base.as_str()).as_str());
        script.append(" 2>/dev/null || exit 0; for d in ");
        script.append(escape_for_shell(pattern.as_str()).as_str());
        script.append("*; do [ -d \"$d\" ] && printf '%s\\n' \"$d\"; done");
        ShellEvent::Exec { job: ShellJob::Complete { base, pattern }, script }
    }

    fn handle_back_tab(&mut self)
        ensures
            final(self)@ == old(self)@.back_tab(),
    {
        let n: usize = self.completions.len();
        if n == 0 {
            return;
        }
        let k: usize = if self.comp_idx == 0 {
            n - 1
        } else {
            self.comp_idx - 1
        };
        let m: usize = k % n;
        assert(self@.completions[m as int] == self.completions@[m as int]@);
        self.input = cd_dir_text(self.comp_base.as_str(), self.completions[m].as_str());
        self.comp_idx = k;
    }

    fn reset_completion(&mut self)
        ensures
            final(self)@ == old(self)@.without_completions(),
    {
        self.completions = Vec::new();
        self.comp_base = String::new();
        self.comp_idx = 0;
    }

    fn remember(&mut self)
        ensures
            final(self)@ == old(self)@.remembered(),
    {
        if !self.input.as_str().is_empty() {
            let n: usize = self.history.len();
            let known = n > 0 && text::same(self.history[n - 1].as_str(), self.input.as_str());
            assert(n > 0 ==> self@.history.last() == self.history@[n - 1]@);
            if !known {
                let line = self.input.clone();
                text::push_text(&mut self.history, line);
            }
            self.hist_idx = None;
        }
    }

    fn history_up(&mut self)
        ensures
            final(self)@ == old(self)@.up(),
    {
        self.reset_completion();
        let n: usize = self.history.len();
        if n == 0 {
            return;
        }
        let k: usize = match self.hist_idx {
            None => n - 1,
            Some(i) => if i == 0 {
                0
            } else {
                i - 1
            },
        };
        self.hist_idx = Some(k);
        if k < n {
            assert(self@.history[k as int] == self.history@[k as int]@);
            self.input = self.history[k].clone();
        }
    }

    fn history_down(&mut self)
        ensures
            final(self)@ == old(self)@.down(),
    {
        self.reset_completion();
        let n: usize = self.history.len();
        if n == 0 {
            return;
        }
        match self.hist_idx {
            None => {},
            Some(i) => {
                if i < n - 1 {
                    self.hist_idx = Some(i + 1);
                    assert(self@.history[i + 1] == self.history@[i + 1]@);
                    self.input = self.history[i + 1].clone();
                } else {
                    self.hist_idx = None;
                    self.input = String::new();
                }
            },
        }
    }

    pub fn on_key(&mut self, key: KeyEvent) -> (r: ShellEvent)
        ensures
            (final(self)@, r@) == old(self)@.on_key(key),
    {
        match key.code {
            KeyCode::Esc => {
                return ShellEvent::Close;
            },
            KeyCode::Enter => {
                let line = self.input.clone();
                self.remember();
                self.input = String::new();
                self.reset_completion();
                return self.exec_line(line.as_str());
            },
            KeyCode::Backspace => {
                self.input = text::pop_char(self.input.as_str());
                self.reset_completion();
            },
            KeyCode::Char(c) => {
                if c == 'q' {
                    return ShellEvent::Close;
                } else if c == 'u' && key.control {
                    self.input = String::new();
                    self.reset_completion();
                } else if c == 'l' && key.control {
                    self.lines = Vec::new();
                } else {
                    self.input.push(c);
                    self.reset_completion();
                }
            },
            KeyCode::Up => {
                self.history_up();
            },
            KeyCode::Down => {
                self.history_down();
            },
            KeyCode::PageUp => {
                let n: usize = self.lines.len();
                let top: usize = if n == 0 {
                    0
                } else {
                    n - 1
                };
                let up: usize = self.scroll.saturating_add(5);
                self.scroll = if up < top {
                    up
                } else {
                    top
                };
            },
            KeyCode::PageDown => {
                self.scroll = self.scroll.saturating_sub(5);
            },
            KeyCode::Tab => {
                return self.handle_tab_completion();
            },
            KeyCode::BackTab => {
                self.handle_back_tab();
            },
            _ => {},
        }
        ShellEvent::Nothing
    }

    /// The first line that is shown, and the one behind the last, where there is room for `max`.
    pub fn output_window(&self, max: usize) -> (r: (usize, usize))
        ensures
            (r.0 as int, r.1 as int) == self@.shown(max as int),
            r.0 <= r.1 <= self@.lines.len(),
    {
        let n: usize = self.lines.len();
        let end: usize = n.saturating_sub(self.scroll);
        (end.saturating_sub(max), end)
    }

    /// The title of the popup: the name and the short id of the container.
    pub fn title(&self) -> (r: String)
        ensures
            r@ == "Shell — "@ + self@.name + " ("@ + text::first_chars(self@.id, 12) + ")"@,
    {
        let mut s = text::cat3("Shell — ", self.name.as_str(), " (");
        s.append(text::take_chars(self.id.as_str(), 12).as_str());
        s.append(")");
        s
    }

    /// The hint that names the interpreter.
    pub fn shell_hint(&self) -> (r: String)
        ensures
            r@ == "(cd, cd -, cd ~)  ("@ + interpreter(self@.shell) + ")"@,
    {
        text::cat3("(cd, cd -, cd ~)  (", interpreter_name(self.shell).as_str(), ")")
    }
}

fn interpreter_name(kind: ShellKind) -> (r: String)
    ensures
        r@ == interpreter(kind),
{
    match kind {
        ShellKind::Sh => "sh".to_owned(),
        ShellKind::Bash => "bash".to_owned(),
    }
}

fn exec_args_with(id: &str, kind: ShellKind, script: &str) -> (r: Vec<String>)
    ensures
        r.deep_view() == docker_exec(id@, kind, script@),
{
    let mut args: Vec<String> = Vec::new();
    text::push_text(&mut args, "exec".to_owned());
    text::push_text(&mut args, "-i".to_owned());
    text::push_text(&mut args, id.to_owned());
    text::push_text(&mut args, interpreter_name(kind));
    text::push_text(&mut args, "-lc".to_owned());
    text::push_text(&mut args, script.to_owned());
    assert(args.deep_view() == docker_exec(id@, kind, script@));
    args
}

/* ---------------- which shell ---------------- */

/// How far the search for a shell has come.
pub enum Detect {
    /// Run `echo ok` with this interpreter.
    Probe(ShellKind),
    /// Ask for the home directory.
    AskHome,
}

impl ShellPopup {
    /// The first step of the search for a shell: is there an `sh`?
    pub fn detect_shell(&self) -> (r: Detect)
        ensures
            r == Detect::Probe(ShellKind::Sh),
    {
        Detect::Probe(ShellKind::Sh)
    }

    /// The arguments that probe for an interpreter.
    pub fn probe_args(&self, kind: ShellKind) -> (r: Vec<String>)
        ensures
            r.deep_view() == docker_exec(self@.id, kind, "echo ok"@),
    {
        exec_args_with(self.id.as_str(), kind, "echo ok")
    }

    /// An interpreter was probed. The first that answers is taken; `bash` is tried where there is
    /// no `sh`, and where neither answers the shell stays as it is.
    pub fn on_probe(&mut self, kind: ShellKind, ok: bool) -> (r: Detect)
        ensures
            final(self)@ == (if ok {
                (ShellView { shell: kind, ..old(self)@ })
            } else {
                old(self)@
            }),
            r == (if !ok && kind == ShellKind::Sh {
                Detect::Probe(ShellKind::Bash)
            } else {
                Detect::AskHome
            }),
    {
        if ok {
            self.shell = kind;
            Detect::AskHome
        } else {
            match kind {
                ShellKind::Sh => Detect::Probe(ShellKind::Bash),
                ShellKind::Bash => Detect::AskHome,
            }
        }
    }

    /// The script that tells the home directory.
    pub fn home_script() -> (r: String)
        ensures
            r@ == "printf %s \"$HOME\""@,
    {
        "printf %s \"$HOME\"".to_owned()
    }

    /// The home directory was asked for.
    pub fn on_home(&mut self, res: Result<String, String>)
        ensures
            final(self)@ == (match result_view(res) {
                Ok(h) => if text::trimmed(h).len() == 0 {
                    old(self)@
                } else {
                    (ShellView { home: Some(text::trimmed(h)), ..old(self)@ })
                },
                Err(_) => old(self)@,
            }),
    {
        match res {
            Ok(h) => {
                let t = text::trim(h.as_str());
                if !t.as_str().is_empty() {
                    self.home = Some(t);
                }
            },
            Err(_) => {},
        }
    }
}

} // verus!
