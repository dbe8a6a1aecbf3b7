//! What the lists of the tabs have in common: a cursor and a search line.

use crate::key::{KeyCode, KeyEvent};
use crate::text;
use vstd::hash_set::StringHashSet;
use vstd::prelude::*;

verus! {

/// The last of `n` rows.
pub open spec fn last_row(n: int) -> Option<usize> {
    if n == 0 {
        None
    } else {
        Some((n - 1) as usize)
    }
}

/// The cursor, held within `n` rows. Where there was none, it goes to the first.
pub open spec fn held_cursor(sel: Option<usize>, n: int) -> Option<usize> {
    match sel {
        Some(i) => if i >= n {
            last_row(n)
        } else {
            sel
        },
        None => if n > 0 {
            Some(0)
        } else {
            None
        },
    }
}

/// The cursor, held within `n` rows. Where there was none, none is set.
pub open spec fn clamped_cursor(sel: Option<usize>, n: int) -> Option<usize> {
    match sel {
        Some(i) => if i >= n {
            last_row(n)
        } else {
            sel
        },
        None => None,
    }
}

/// The cursor moved by `delta` rows, within `n` of them.
pub open spec fn moved_cursor(sel: Option<usize>, n: int, delta: int) -> Option<usize> {
    if n == 0 {
        None
    } else {
        let cur = match sel {
            Some(i) => i as int,
            None => 0,
        };
        let next = cur + delta;
        Some(
            (if next < 0 {
                0
            } else if next > n - 1 {
                n - 1
            } else {
                next
            }) as usize,
        )
    }
}

/// A cursor on one of `n` rows, or on none.
pub open spec fn in_range(sel: Option<usize>, n: int) -> bool {
    sel matches Some(i) ==> i < n
}

/// However the cursor is held or moved, it stays on a row that is there.
pub proof fn cursor_stays_in_range(sel: Option<usize>, n: int, delta: int)
    requires
        0 <= n <= usize::MAX,
    ensures
        in_range(held_cursor(sel, n), n),
        in_range(clamped_cursor(sel, n), n),
        in_range(moved_cursor(sel, n, delta), n),
        n > 0 ==> held_cursor(sel, n) is Some && moved_cursor(sel, n, delta) is Some,
{
}

pub fn hold_cursor(sel: Option<usize>, n: usize) -> (r: Option<usize>)
    ensures
        r == held_cursor(sel, n as int),
{
    match sel {
        Some(i) => if i >= n {
            if n == 0 {
                None
            } else {
                Some(n - 1)
            }
        } else {
            sel
        },
        None => if n > 0 {
            Some(0)
        } else {
            None
        },
    }
}

pub fn clamp_cursor(sel: Option<usize>, n: usize) -> (r: Option<usize>)
    ensures
        r == clamped_cursor(sel, n as int),
{
    match sel {
        Some(i) => if i >= n {
            if n == 0 {
                None
            } else {
                Some(n - 1)
            }
        } else {
            sel
        },
        None => None,
    }
}

pub fn cursor_down(sel: Option<usize>, n: usize) -> (r: Option<usize>)
    ensures
        r == moved_cursor(sel, n as int, 1),
{
    if n == 0 {
        return None;
    }
    let cur: usize = match sel {
        Some(i) => i,
        None => 0,
    };
    Some(
        if cur < n - 1 {
            cur + 1
        } else {
            n - 1
        },
    )
}

pub fn cursor_up(sel: Option<usize>, n: usize) -> (r: Option<usize>)
    ensures
        r == moved_cursor(sel, n as int, -1),
{
    if n == 0 {
        return None;
    }
    let cur: usize = match sel {
        Some(i) => i,
        None => 0,
    };
    Some(
        if cur == 0 {
            0
        } else if cur - 1 > n - 1 {
            n - 1
        } else {
            cur - 1
        },
    )
}

/// The search line after a key: whether it is still open, and its text.
pub open spec fn searched(query: Seq<char>, key: KeyEvent) -> (bool, Seq<char>) {
    match key.code {
        KeyCode::Esc => (false, Seq::empty()),
        KeyCode::Enter => (false, query),
        KeyCode::Backspace => (true, text::popped(query)),
        KeyCode::Char(c) => (true, query.push(c)),
        _ => (true, query),
    }
}

/// A key goes to the search line. Returns whether the line stays open.
pub fn search_key(query: &mut String, key: KeyEvent) -> (r: bool)
    ensures
        (r, final(query)@) == searched(old(query)@, key),
{
    match key.code {
        KeyCode::Esc => {
            *query = String::new();
            false
        },
        KeyCode::Enter => false,
        KeyCode::Backspace => {
            *query = text::pop_char(query.as_str());
            true
        },
        KeyCode::Char(c) => {
            query.push(c);
            true
        },
        _ => true,
    }
}

/// A set with a member taken out if it was there, or put in if it was not.
pub open spec fn toggled(s: Set<Seq<char>>, id: Seq<char>) -> Set<Seq<char>> {
    if s.contains(id) {
        s.remove(id)
    } else {
        s.insert(id)
    }
}

/// To toggle a member twice changes nothing.
pub proof fn toggled_twice(s: Set<Seq<char>>, id: Seq<char>)
    ensures
        toggled(toggled(s, id), id) == s,
{
    assert(toggled(toggled(s, id), id) =~= s);
}

pub fn toggle(set: &mut StringHashSet, id: &str)
    ensures
        final(set)@ == toggled(old(set)@, id@),
{
    if set.contains(id) {
        let _ = set.remove(id);
    } else {
        let _ = set.insert(id.to_owned());
    }
}

/// A key that closes a popup.
pub open spec fn closes(key: KeyEvent) -> bool {
    key.code == KeyCode::Esc || key.code == KeyCode::Enter || key.code == KeyCode::Char('q')
}

/// A key that says yes.
pub open spec fn agrees(key: KeyEvent) -> bool {
    key.code == KeyCode::Enter || key.code == KeyCode::Char('y')
}

/// A key that says no.
pub open spec fn refuses(key: KeyEvent) -> bool {
    key.code == KeyCode::Esc || key.code == KeyCode::Char('n')
}

pub fn is_close(key: KeyEvent) -> (r: bool)
    ensures
        r == closes(key),
{
    match key.code {
        KeyCode::Esc => true,
        KeyCode::Enter => true,
        KeyCode::Char(c) => c == 'q',
        _ => false,
    }
}

pub fn is_yes(key: KeyEvent) -> (r: bool)
    ensures
        r == agrees(key),
{
    match key.code {
        KeyCode::Enter => true,
        KeyCode::Char(c) => c == 'y',
        _ => false,
    }
}

pub fn is_no(key: KeyEvent) -> (r: bool)
    ensures
        r == refuses(key),
{
    match key.code {
        KeyCode::Esc => true,
        KeyCode::Char(c) => c == 'n',
        _ => false,
    }
}

pub open spec fn lower_words(l: Seq<Seq<char>>) -> Seq<Seq<char>> {
    Seq::new(l.len(), |i: int| text::lowercase(l[i]))
}

/// The words of a query, in lower case.
pub fn query_words(q: &str) -> (r: Vec<String>)
    ensures
        r.deep_view() == lower_words(text::words(q@)),
{
    let words = text::split_whitespace(q);
    let ghost l = words.deep_view();
    let mut out: Vec<String> = Vec::new();
    let mut i: usize = 0;
    while i < words.len()
        invariant
            i <= words@.len(),
            l == words.deep_view(),
            out.deep_view() == lower_words(l).take(i as int),
        decreases words@.len() - i,
    {
        assert(l[i as int] == words@[i as int]@);
        text::push_text(&mut out, text::lower(words[i].as_str()));
        assert(lower_words(l).take(i + 1) == lower_words(l).take(i as int).push(
            lower_words(l)[i as int],
        ));
        i += 1;
    }
    assert(lower_words(l).take(l.len() as int) == lower_words(l));
    out
}

} // verus!
