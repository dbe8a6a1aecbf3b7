//! What is meant by a path, in the shell and of a project.

use crate::compose::{components, counted_parts, file_name_of, same_place};
use crate::containers::shell::{cd_command, escaped, listing_script, ShellView};
use crate::containers::util::middle_cut;
use crate::geometry::{centered, framed, has_room, Rect};
use crate::laws::shell::plain_name;
use crate::text;
use vstd::prelude::*;

verus! {

/// A suggestion for a name in the working directory is typed as the name; for one behind a path, as
/// the path and the name with one slash between them.
pub proof fn suggestions_are_typed(
    s: ShellView,
    dir: Seq<char>,
    name: Seq<char>,
    pattern: Seq<char>,
)
    requires
        plain_name(name),
        name[0] != '.',
        dir.len() > 0,
        dir.last() != '/',
        dir[0] == '/',
    ensures
        cd_command(seq!['.'], name) == "cd "@ + name,
        cd_command(dir, name) == "cd "@ + dir + seq!['/'] + name,
        cd_command(dir.push('/'), name) == "cd "@ + dir + seq!['/'] + name,
        cd_command(seq!['/'], name) == "cd "@ + seq!['/'] + name,
        s.completed(seq!['.'], pattern, seq![name]).input == "cd "@ + name + "/"@,
        s.completed(seq!['.'], pattern, Seq::empty()) == s,
{
    reveal_strlit(".");
    reveal_strlit("/");
    reveal_strlit("./");
    assert("."@ == seq!['.'] && "/"@ == seq!['/']);
    assert("./"@[0] == '.');
    assert(name.contains(name[0]));
    no_prefix(name, "/"@);
    no_prefix(name, "./"@);
    assert(text::without_trailing(dir, '/') == dir);
    let d = dir.push('/');
    assert(d.drop_last() == dir);
    assert(text::without_trailing(d, '/') == dir);
    assert(dir != seq!['.'] && d != seq!['.']);
    assert(dir != seq!['/']) by {
        assert(dir.last() != '/');
        assert(seq!['/'].last() == '/');
    }
    assert(d != seq!['/']) by {
        assert(d.len() > 1);
    }
    let p = dir + seq!['/'] + name;
    assert(p[0] == '/');
    no_prefix(p, "./"@);
    let r = seq!['/'] + name;
    no_prefix(r, "./"@);
    assert(seq!['/'][0] != seq!['.'][0]);
    assert(seq!['/'] != seq!['.']);
    assert("cd "@ + p == "cd "@ + dir + seq!['/'] + name);
    assert("cd "@ + r == "cd "@ + seq!['/'] + name);
    assert(seq![name][0] == name);
}

proof fn no_prefix(s: Seq<char>, pat: Seq<char>)
    requires
        s.len() > 0,
        pat.len() > 0,
        s[0] != pat[0],
    ensures
        text::without_leading(s, pat) == s,
{
    if text::begins(s, pat) {
        assert(s.subrange(0, pat.len() as int)[0] == s[0]);
    }
}

/// Suggestions are looked for in the working directory and the directory that is being typed, by
/// what a name is to begin with.
pub proof fn suggestions_are_looked_for(cwd: Seq<char>, base: Seq<char>, pattern: Seq<char>)
    ensures
        text::begins(listing_script(cwd, base, pattern), "cd "@ + escaped(cwd) + " "@),
        text::holds(listing_script(cwd, base, pattern), " cd "@ + escaped(base) + " "@),
        text::holds(listing_script(cwd, base, pattern), "for d in "@ + escaped(pattern) + "*;"@),
{
    reveal_strlit("cd ");
    reveal_strlit(" cd ");
    reveal_strlit(" ");
    reveal_strlit("*;");
    reveal_strlit("for d in ");
    reveal_strlit(" 2>/dev/null || exit 0; cd ");
    reveal_strlit(" 2>/dev/null || exit 0; for d in ");
    reveal_strlit("*; do [ -d \"$d\" ] && printf '%s\\n' \"$d\"; done");
    let s1 = " 2>/dev/null || exit 0; cd "@;
    let s2 = " 2>/dev/null || exit 0; for d in "@;
    let s3 = "*; do [ -d \"$d\" ] && printf '%s\\n' \"$d\"; done"@;
    let all = listing_script(cwd, base, pattern);
    assert(all == "cd "@ + escaped(cwd) + s1 + escaped(base) + s2 + escaped(pattern) + s3);
    let one = "cd "@ + escaped(cwd) + " "@;
    assert(all.subrange(0, one.len() as int) == one);
    let k = ("cd "@ + escaped(cwd) + s1).len() - 4;
    let two = " cd "@ + escaped(base) + " "@;
    assert(all.subrange(k, k + two.len()) == two);
    assert(text::occurs_at(all, two, k));
    let n = ("cd "@ + escaped(cwd) + s1 + escaped(base) + s2).len() - 9;
    let three = "for d in "@ + escaped(pattern) + "*;"@;
    assert(all.subrange(n, n + three.len()) == three);
    assert(text::occurs_at(all, three, n));
}

/// The file name of a path is what stands behind its last slash.
pub proof fn file_names(dir: Seq<char>, name: Seq<char>)
    requires
        plain_name(name),
    ensures
        file_name_of(dir + seq!['/'] + name) == Some(name),
{
    reveal_strlit(".");
    reveal_strlit("..");
    reveal_strlit("/");
    assert("."@ == seq!['.'] && ".."@ == seq!['.', '.'] && "/"@ == seq!['/']);
    let p = dir + seq!['/'] + name;
    let l = seq![name];
    text::parts_of_joined(l, '/');
    assert(text::joined(l, seq!['/']) == name);
    text::parts_of_two(dir, name, '/');
    let parts = text::parts(p, '/');
    assert(parts == text::parts(dir, '/') + seq![name]);
    assert(parts.drop_last() == text::parts(dir, '/'));
    assert(parts.last() == name);
    assert(counted_parts(parts).last() == name);
    assert(components(p).last() == name);
    assert(!name.contains('/'));
    assert(name != "/"@) by {
        if name == "/"@ {
            assert(name[0] == '/');
            assert(name.contains('/'));
        }
    }
}

/// Doubled slashes, and one at the end, do not make another path; another name does.
pub proof fn slashes_do_not_matter(dir: Seq<char>, name: Seq<char>, other: Seq<char>)
    requires
        dir.len() > 0,
        plain_name(name),
        plain_name(other),
    ensures
        same_place(dir + seq!['/'] + seq!['/'] + name, dir + seq!['/'] + name),
        same_place(dir + seq!['/'] + name + seq!['/'], dir + seq!['/'] + name),
        same_place(dir + seq!['/'] + name, dir + seq!['/'] + other) ==> name == other,
{
    let none = Seq::<char>::empty();
    let slash = seq!['/'];
    reveal_strlit("/");
    assert("/"@ == slash);
    let l = seq![name];
    text::parts_of_joined(l, '/');
    assert(text::joined(l, slash) == name);
    let p = dir + slash + name;
    let d = text::parts(dir, '/');
    text::parts_of_two(dir, name, '/');
    assert(text::parts(p, '/') == d + seq![name]);
    assert(text::parts(none, '/') == seq![none]);
    let q = dir + slash + none;
    text::parts_of_two(dir, none, '/');
    assert(q == dir + slash);
    text::parts_of_two(q, name, '/');
    let doubled = dir + slash + slash + name;
    assert(text::parts(doubled, '/') == d + seq![none] + seq![name]);
    text::parts_of_two(p, none, '/');
    let ended = p + slash;
    assert(p + slash + none == ended);
    assert(text::parts(ended, '/') == d + seq![name] + seq![none]);
    let a = d + seq![name];
    assert(a.drop_last() == d && a.last() == name);
    let b = d + seq![none];
    assert(b.drop_last() == d && b.last() == none);
    assert(counted_parts(b) == counted_parts(d));
    let c = b + seq![name];
    assert(c.drop_last() == b && c.last() == name);
    let e = a + seq![none];
    assert(e.drop_last() == a && e.last() == none);
    reveal_strlit(".");
    assert("."@ == seq!['.']);
    assert(counted_parts(c) == counted_parts(a));
    assert(counted_parts(e) == counted_parts(a));
    assert(p.subrange(0, 1)[0] == dir[0] && doubled.subrange(0, 1)[0] == dir[0] && ended.subrange(
        0,
        1,
    )[0] == dir[0]);
    assert(p.subrange(0, 1) == doubled.subrange(0, 1));
    assert(p.subrange(0, 1) == ended.subrange(0, 1));
    file_names(dir, name);
    file_names(dir, other);
}

/// A text that is cut keeps its start and its end, with dots between them.
pub proof fn cut_keeps_the_ends(s: Seq<char>, max: int)
    requires
        max > 4,
        s.len() > max,
    ensures
        middle_cut(s, max)[0] == s[0],
        middle_cut(s, max).last() == s.last(),
        text::holds(middle_cut(s, max), "..."@),
{
    reveal_strlit("...");
    let keep = max - 3;
    let head = keep / 2;
    let tail = keep - head;
    let c = middle_cut(s, max);
    assert(c == s.take(head) + "..."@ + s.skip(s.len() - tail));
    assert(c.subrange(head, head + 3) == "..."@);
    assert(text::occurs_at(c, "..."@, head));
}

/// What lies in the middle of an area has as much room on one side as on the other, but for one
/// cell; and a frame takes one cell from each side.
pub proof fn middle_and_frame(area: Rect, w: int, h: int)
    requires
        has_room(area, w, h),
        area.width >= 2,
        area.height >= 2,
    ensures
        ({
            let r = centered(area, w, h);
            let left = r.x - area.x;
            let right = area.x + area.width - (r.x + r.width);
            let above = r.y - area.y;
            let below = area.y + area.height - (r.y + r.height);
            &&& r.width == w && r.height == h
            &&& left <= right <= left + 1
            &&& above <= below <= above + 1
        }),
        framed(area).x == area.x + 1,
        framed(area).y == area.y + 1,
        framed(area).width == area.width - 2,
        framed(area).height == area.height - 2,
{
}

} // verus!
