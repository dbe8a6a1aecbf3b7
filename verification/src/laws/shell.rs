//! Where `cd` leads in the shell of a container, and what is run there.

use crate::containers::shell::{
    base_and_pattern, cd_command, common_prefix, docker_exec, escaped, listed, resolved, simplified,
    ShellEventView, ShellJobView, ShellKind, ShellView,
};
use crate::key::KeyCode;
use crate::laws::keys::pressed;
use crate::text;
use vstd::prelude::*;

verus! {

/// A name of a directory, as a user types it.
pub open spec fn plain_name(s: Seq<char>) -> bool {
    &&& s.len() > 0
    &&& !s.contains('/')
    &&& s != seq!['.']
    &&& s != seq!['.', '.']
}

pub open spec fn plain_names(l: Seq<Seq<char>>) -> bool {
    forall|i: int| 0 <= i < l.len() ==> plain_name(#[trigger] l[i])
}

/// Names, each with a slash before it.
pub open spec fn slashed(names: Seq<Seq<char>>) -> Seq<char>
    decreases names.len(),
{
    if names.len() == 0 {
        Seq::empty()
    } else {
        slashed(names.drop_last()) + seq!['/'] + names.last()
    }
}

/// The absolute path with these components.
pub open spec fn path_of(names: Seq<Seq<char>>) -> Seq<char> {
    if names.len() == 0 {
        seq!['/']
    } else {
        slashed(names)
    }
}

proof fn part_of_name(s: Seq<char>)
    requires
        !s.contains('/'),
    ensures
        text::parts(s, '/') == seq![s],
{
    let l = seq![s];
    text::parts_of_joined(l, '/');
    assert(text::joined(l, seq!['/']) == s);
}

proof fn parts_of_slashed(names: Seq<Seq<char>>)
    requires
        plain_names(names),
    ensures
        text::parts(slashed(names), '/') == seq![Seq::<char>::empty()] + names,
    decreases names.len(),
{
    let none = Seq::<char>::empty();
    if names.len() == 0 {
        assert(text::parts(none, '/') == seq![none]);
        assert(seq![none] + names == seq![none]);
    } else {
        let m = names.drop_last();
        assert forall|i: int| 0 <= i < m.len() implies plain_name(#[trigger] m[i]) by {
            assert(m[i] == names[i]);
        }
        parts_of_slashed(m);
        let last = names[names.len() - 1];
        assert(plain_name(last));
        part_of_name(last);
        text::parts_of_two(slashed(m), last, '/');
        assert(seq![none] + m + seq![last] == seq![none] + names);
    }
}

proof fn names_remain(names: Seq<Seq<char>>)
    requires
        plain_names(names),
    ensures
        resolved(seq![Seq::<char>::empty()] + names) == names,
    decreases names.len(),
{
    let none = Seq::<char>::empty();
    let l = seq![none] + names;
    reveal_strlit(".");
    reveal_strlit("..");
    assert("."@ == seq!['.']);
    assert(".."@ == seq!['.', '.']);
    if names.len() == 0 {
        assert(l == seq![none]);
        assert(l.drop_last() == Seq::<Seq<char>>::empty());
        assert(resolved(l.drop_last()) == l.drop_last());
        assert(l.last() == none);
        assert(resolved(l) == l.drop_last());
        assert(names == Seq::<Seq<char>>::empty());
    } else {
        let m = names.drop_last();
        assert forall|i: int| 0 <= i < m.len() implies plain_name(#[trigger] m[i]) by {
            assert(m[i] == names[i]);
        }
        names_remain(m);
        assert(l.drop_last() == seq![none] + m);
        assert(plain_name(names[names.len() - 1]));
        assert(l.last() == names.last());
        assert(m.push(names.last()) == names);
    }
}

proof fn joined_is_slashed(names: Seq<Seq<char>>)
    requires
        names.len() > 0,
    ensures
        seq!['/'] + text::joined(names, seq!['/']) == slashed(names),
    decreases names.len(),
{
    if names.len() == 1 {
        let m = names.drop_last();
        assert(m.len() == 0);
        assert(slashed(m) == Seq::<char>::empty());
        assert(names.last() == names[0]);
        assert(Seq::<char>::empty() + seq!['/'] + names[0] == seq!['/'] + names[0]);
    } else {
        let m = names.drop_last();
        joined_is_slashed(m);
        assert(seq!['/'] + (text::joined(m, seq!['/']) + seq!['/'] + names.last()) == (seq!['/']
            + text::joined(m, seq!['/'])) + seq!['/'] + names.last());
    }
}

/// A path whose parts, behind the first slash, come to some names is simplified to their path.
proof fn simplified_to(p: Seq<char>, names: Seq<Seq<char>>)
    requires
        p.len() > 0,
        p[0] == '/',
        resolved(text::parts(p, '/')) == names,
    ensures
        simplified(p) == path_of(names),
{
    reveal_strlit("/");
    assert("/"@ == seq!['/']);
    assert(p.subrange(0, 1) == seq!['/']);
    assert(text::begins(p, "/"@));
    if names.len() == 0 {
        assert(text::joined(names, "/"@) == Seq::<char>::empty());
        assert(seq!['/'] + Seq::<char>::empty() == seq!['/']);
    } else {
        joined_is_slashed(names);
    }
}

proof fn slashed_starts(names: Seq<Seq<char>>)
    requires
        names.len() > 0,
    ensures
        slashed(names).len() > 0,
        slashed(names)[0] == '/',
        plain_names(names) ==> slashed(names).len() > 1,
    decreases names.len(),
{
    let m = names.drop_last();
    if m.len() > 0 {
        slashed_starts(m);
        if plain_names(names) {
            assert forall|i: int| 0 <= i < m.len() implies plain_name(#[trigger] m[i]) by {
                assert(m[i] == names[i]);
            }
        }
    } else {
        assert(slashed(m) == Seq::<char>::empty());
        if plain_names(names) {
            assert(plain_name(names[0]));
        }
    }
}

/// What the parts of a relative argument come to, behind the working directory.
proof fn below(s: ShellView, names: Seq<Seq<char>>, arg: Seq<char>, out: Seq<Seq<char>>)
    requires
        plain_names(names),
        s.cwd == path_of(names),
        arg.len() > 0,
        arg[0] != '/',
        arg != seq!['-'],
        arg != seq!['~'],
        resolved(seq![Seq::<char>::empty()] + names + text::parts(arg, '/')) == out,
    ensures
        s.target(arg) == path_of(out),
{
    reveal_strlit("/");
    reveal_strlit("-");
    reveal_strlit("~");
    assert("/"@ == seq!['/']);
    assert("-"@ == seq!['-']);
    assert("~"@ == seq!['~']);
    let none = Seq::<char>::empty();
    assert(arg.subrange(0, 1)[0] == arg[0]);
    parts_of_slashed(names);
    if names.len() == 0 {
        text::parts_of_two(none, arg, '/');
        assert(none + seq!['/'] + arg == seq!['/'] + arg);
        assert(text::parts(none, '/') == seq![none]);
        assert(seq![none] + names == seq![none]);
        simplified_to(seq!['/'] + arg, out);
    } else {
        slashed_starts(names);
        assert(s.cwd != seq!['/']);
        text::parts_of_two(s.cwd, arg, '/');
        simplified_to(s.cwd + seq!['/'] + arg, out);
    }
}

/// A relative `cd` starts at the working directory: a name leads into the directory of that name
/// below it, `..` leads to the directory above, and `.` leads nowhere else.
pub proof fn cd_starts_at_the_working_directory(
    s: ShellView,
    names: Seq<Seq<char>>,
    arg: Seq<char>,
)
    requires
        plain_names(names),
        s.cwd == path_of(names),
        plain_name(arg),
        arg != seq!['-'],
        arg != seq!['~'],
    ensures
        s.target(arg) == path_of(names.push(arg)),
        names.len() > 0 ==> s.target(seq!['.', '.']) == path_of(names.drop_last()),
        names.len() == 0 ==> s.target(seq!['.', '.']) == seq!['/'],
        s.target(seq!['.']) == s.cwd,
{
    reveal_strlit(".");
    reveal_strlit("..");
    assert("."@ == seq!['.']);
    assert(".."@ == seq!['.', '.']);
    let none = Seq::<char>::empty();
    let all = seq![none] + names;
    names_remain(names);
    assert(arg.contains(arg[0]));
    part_of_name(arg);
    let more = names.push(arg);
    assert(plain_names(more));
    names_remain(more);
    assert(all + seq![arg] == seq![none] + more);
    below(s, names, arg, more);
    let up = seq!['.', '.'];
    part_of_name(up);
    assert((all + seq![up]).drop_last() == all);
    assert((all + seq![up]).last() == up);
    below(
        s,
        names,
        up,
        if names.len() == 0 {
            names
        } else {
            names.drop_last()
        },
    );
    let here = seq!['.'];
    part_of_name(here);
    assert((all + seq![here]).drop_last() == all);
    assert((all + seq![here]).last() == here);
    below(s, names, here, names);
}

/// An absolute argument of `cd` names the same directory wherever the shell stands; a path made of
/// names is taken as it is.
pub proof fn absolute_cd_is_the_same_everywhere(
    s: ShellView,
    t: ShellView,
    arg: Seq<char>,
    names: Seq<Seq<char>>,
)
    requires
        arg.len() > 0,
        arg[0] == '/',
        plain_names(names),
        names.len() > 0,
    ensures
        s.target(arg) == t.target(arg),
        s.target(path_of(names)) == path_of(names),
{
    reveal_strlit("/");
    assert("/"@ == seq!['/']);
    assert(arg.subrange(0, 1) == seq!['/']);
    slashed_starts(names);
    let p = path_of(names);
    assert(p.subrange(0, 1) == seq!['/']);
    parts_of_slashed(names);
    names_remain(names);
    simplified_to(p, names);
}

proof fn untrimmed(s: Seq<char>)
    requires
        s.len() > 0,
        !text::is_white(s[0]),
        !text::is_white(s.last()),
    ensures
        text::trimmed(s) == s,
{
}

/// A `cd` is tried in the container before the shell moves: the line asks for a script that enters
/// the target, the shell moves there once the script has succeeded, and `cd -` would then lead
/// back.
pub proof fn cd_is_tried_first(s: ShellView, arg: Seq<char>, out: Seq<char>)
    requires
        arg.len() > 0,
        !text::is_white(arg[0]),
        !text::is_white(arg.last()),
        arg != seq!['-'],
        arg != seq!['~'],
    ensures
        ({
            let (asked, ev) = s.exec_line(seq!['c', 'd', ' '] + arg);
            let job = ShellJobView::Cd { arg, target: s.target(arg) };
            let there = asked.finish(job, Ok(out));
            &&& asked == s
            &&& ev == (ShellEventView::Exec {
                job,
                script: seq!['c', 'd', ' '] + escaped(s.target(arg)) + seq![
                    ' ',
                    '&',
                    '&',
                    ' ',
                    'p',
                    'w',
                    'd',
                ],
            })
            &&& there.cwd == s.target(arg)
            &&& there.prev_cwd == Some(s.cwd)
            &&& asked.finish(job, Err(out)).cwd == s.cwd
        }),
{
    reveal_strlit("cd ");
    reveal_strlit(" && pwd");
    reveal_strlit("exit");
    reveal_strlit("clear");
    reveal_strlit("help");
    reveal_strlit("cd -");
    reveal_strlit("cd ~");
    reveal_strlit("cd");
    let cd = seq!['c', 'd', ' '];
    assert("cd "@ == cd);
    assert(" && pwd"@ == seq![' ', '&', '&', ' ', 'p', 'w', 'd']);
    let l = cd + arg;
    assert(l[0] == 'c' && l[1] == 'd' && l[2] == ' ' && l[3] == arg[0]);
    assert(l.last() == arg.last());
    untrimmed(l);
    untrimmed(arg);
    assert("exit"@[0] == 'e' && "help"@[0] == 'h' && "clear"@[1] == 'l' && "cd"@.len() == 2);
    assert(l != "cd -"@) by {
        assert("cd -"@.len() == 4 && "cd -"@[3] == '-');
        if l == "cd -"@ {
            assert(arg == seq!['-']);
        }
    }
    assert(l != "cd ~"@) by {
        assert("cd ~"@.len() == 4 && "cd ~"@[3] == '~');
        if l == "cd ~"@ {
            assert(arg == seq!['~']);
        }
    }
    assert(l.subrange(0, 3) == cd);
    assert(l.skip(3) == arg);
}

/// `exit` closes the shell; `clear` takes the lines away and nothing else; `cd` alone and `cd ~`
/// lead home without asking the container.
pub proof fn builtin_lines(s: ShellView, home: Seq<char>)
    requires
        s.home == Some(home),
    ensures
        s.exec_line("exit"@) == (s, ShellEventView::Close),
        s.exec_line("clear"@).1 == ShellEventView::Nothing,
        s.exec_line("clear"@).0.lines.len() == 0,
        s.exec_line("clear"@).0.cwd == s.cwd,
        s.exec_line("clear"@).0.history == s.history,
        s.exec_line("cd"@).0.cwd == home,
        s.exec_line("cd"@).0.prev_cwd == Some(s.cwd),
        s.exec_line("cd"@).1 == ShellEventView::Nothing,
        s.exec_line("cd ~"@) == s.exec_line("cd"@),
{
    reveal_strlit("cd ");
    reveal_strlit("exit");
    reveal_strlit("clear");
    reveal_strlit("help");
    reveal_strlit("cd -");
    reveal_strlit("cd ~");
    reveal_strlit("cd");
    untrimmed("exit"@);
    untrimmed("clear"@);
    untrimmed("cd"@);
    untrimmed("cd ~"@);
    assert("exit"@[0] == 'e' && "help"@[0] == 'h' && "clear"@[1] == 'l' && "cd"@.len() == 2);
    assert("cd ~"@[3] == '~' && "cd -"@[3] == '-' && "cd ~"@[0] == 'c' && "cd"@[0] == 'c');
    assert("clear"@.len() == 5 && "exit"@.len() == 4 && "cd ~"@.len() == 4);
}

/// Any other line is shown behind the prompt and run: as it is where the shell stands at the root,
/// and else in the working directory.
pub proof fn other_lines_are_run(s: ShellView, line: Seq<char>)
    requires
        line.len() > 0,
        !text::is_white(line[0]),
        !text::is_white(line.last()),
        line[0] != 'c',
        line != "exit"@,
        line != "help"@,
    ensures
        ({
            let (t, ev) = s.exec_line(line);
            &&& t.running
            &&& t.cwd == s.cwd
            &&& t.lines.len() == s.lines.len() + 1
            &&& t.lines.last() == s.name + ":"@ + s.cwd + "$ "@ + line
            &&& s.cwd == "/"@ ==> ev == (ShellEventView::Exec { job: ShellJobView::Run, script: line })
            &&& s.cwd != "/"@ ==> ev == (ShellEventView::Exec {
                job: ShellJobView::Run,
                script: "cd "@ + escaped(s.cwd) + " && "@ + line,
            })
        }),
{
    reveal_strlit("cd ");
    reveal_strlit("clear");
    reveal_strlit("cd -");
    reveal_strlit("cd ~");
    reveal_strlit("cd");
    untrimmed(line);
    assert("cd "@[0] == 'c' && "clear"@[0] == 'c' && "cd -"@[0] == 'c' && "cd ~"@[0] == 'c');
    assert("cd"@[0] == 'c');
    if text::begins(line, "cd "@) {
        assert(line.subrange(0, 3)[0] == line[0]);
    }
}

/// A script is run with the shell that was found, in the container.
pub proof fn scripts_run_in_the_container(id: Seq<char>, script: Seq<char>)
    ensures
        docker_exec(id, ShellKind::Sh, script) == seq!["exec"@, "-i"@, id, "sh"@, "-lc"@, script],
        docker_exec(id, ShellKind::Bash, script) == seq!["exec"@, "-i"@, id, "bash"@, "-lc"@, script],
{
}

/// What a command wrote is shown line by line below what was shown before, and the shell no longer
/// waits.
pub proof fn output_is_shown(s: ShellView, line: Seq<char>)
    requires
        line.len() > 0,
        !line.contains('\n'),
    ensures
        s.finish(ShellJobView::Run, Ok(line)).lines == s.lines.push(line),
        !s.finish(ShellJobView::Run, Ok(line)).running,
        s.finish(ShellJobView::Run, Ok(Seq::empty())).lines == s.lines,
        s.finish(ShellJobView::Run, Err(line)).lines == s.lines.push("error: "@ + line),
        !s.finish(ShellJobView::Run, Err(line)).running,
{
    same_lines(line);
    let l = seq![line];
    text::parts_of_joined(l, '\n');
    assert(text::joined(l, seq!['\n']) == line);
    assert(s.lines + seq![line] == s.lines.push(line));
}

proof fn same_lines(s: Seq<char>)
    requires
        !s.contains('\n'),
    ensures
        text::unix_lines(s) == s,
    decreases s.len(),
{
    if s.len() > 0 {
        let m = s.drop_last();
        assert(!m.contains('\n')) by {
            if m.contains('\n') {
                let i = choose|i: int| 0 <= i < m.len() && m[i] == '\n';
                assert(s[i] == '\n');
            }
        }
        same_lines(m);
        assert(s[s.len() - 1] != '\n');
        assert(m.push(s.last()) == s);
    }
}

/// What is typed goes behind the line, Backspace takes the last character away, and Enter carries
/// the line out, empties it and keeps it in the history, from where Up brings it back and Down
/// takes it away again.
pub proof fn lines_are_typed_and_kept(s: ShellView, c: char)
    requires
        c != 'q',
        s.history.len() < usize::MAX,
        s.input.len() > 0,
        s.history.len() > 0 ==> s.history.last() != s.input,
        text::trimmed(s.input) != "clear"@,
    ensures
        s.on_key(pressed(KeyCode::Char(c))).0.input == s.input.push(c),
        s.on_key(pressed(KeyCode::Char(c))).0.on_key(pressed(KeyCode::Backspace)).0.input == s.input,
        ({
            let after = s.on_key(pressed(KeyCode::Enter)).0;
            &&& after.input.len() == 0
            &&& after.history == s.history.push(s.input)
            &&& after.on_key(pressed(KeyCode::Up)).0.input == s.input
            &&& after.on_key(pressed(KeyCode::Up)).0.on_key(pressed(KeyCode::Down)).0.input.len()
                == 0
        }),
        s.on_key(pressed(KeyCode::Esc)).1 == ShellEventView::Close,
{
    assert(s.input.push(c).drop_last() == s.input);
    let after = s.on_key(pressed(KeyCode::Enter)).0;
    assert(after.history == s.history.push(s.input));
    assert(after.hist_idx is None);
    assert(after.history.last() == s.input);
}

/// Exactly as many lines lie below those that are shown as the shell is scrolled up, and as many
/// are shown as there is room for.
pub proof fn shell_is_scrolled(s: ShellView, rows: int)
    requires
        rows > 0,
        s.scroll <= s.lines.len(),
    ensures
        ({
            let (start, end) = s.shown(rows);
            &&& s.lines.len() - end == s.scroll
            &&& 0 <= start <= end
            &&& end - start <= rows
            &&& end - start < rows ==> start == 0
        }),
{
}

/// A name that is being typed is looked for in the working directory; one behind a path, in that
/// path.
pub proof fn names_are_looked_for(dir: Seq<char>, name: Seq<char>, home: Option<Seq<char>>)
    requires
        plain_name(name),
        !text::is_white(name[0]),
        !text::is_white(name.last()),
        name[0] != '~',
        dir.len() > 0,
        !text::is_white(dir[0]),
        dir[0] != '~',
    ensures
        base_and_pattern(name, home) == (seq!['.'], name),
        base_and_pattern(dir + seq!['/'] + name, home) == (dir, name),
        base_and_pattern(Seq::empty(), home).0 == seq!['.'],
        base_and_pattern(Seq::empty(), home).1.len() == 0,
{
    reveal_strlit(".");
    reveal_strlit("/");
    reveal_strlit("~");
    reveal_strlit("~/");
    assert("."@ == seq!['.']);
    assert("~"@[0] == '~' && "~/"@[0] == '~' && "/"@ == seq!['/']);
    untrimmed(name);
    let p = dir + seq!['/'] + name;
    assert(p[0] == dir[0] && p.last() == name.last());
    untrimmed(p);
    if text::begins(name, "~/"@) {
        assert(name.subrange(0, 2)[0] == name[0]);
    }
    if text::begins(p, "~/"@) {
        assert(p.subrange(0, 2)[0] == p[0]);
    }
    no_slash(name);
    slash_before(dir, name);
    assert(name.contains(name[name.len() - 1]));
    if text::ends(name, "/"@) {
        assert(name.subrange(name.len() - 1, name.len() as int)[0] == name.last());
    }
    if text::ends(p, "/"@) {
        assert(p.subrange(p.len() - 1, p.len() as int)[0] == p.last());
    }
    assert(p.take(dir.len() as int) == dir);
    assert(p.skip((dir.len() + 1) as int) == name);
    assert(text::trimmed(Seq::<char>::empty()).len() == 0);
}

proof fn no_slash(s: Seq<char>)
    requires
        !s.contains('/'),
    ensures
        text::last_index(s, '/') is None,
    decreases s.len(),
{
    if s.len() > 0 {
        let m = s.drop_last();
        assert(!m.contains('/')) by {
            if m.contains('/') {
                let i = choose|i: int| 0 <= i < m.len() && m[i] == '/';
                assert(s[i] == '/');
            }
        }
        no_slash(m);
        assert(s[s.len() - 1] != '/');
    }
}

proof fn slash_before(dir: Seq<char>, name: Seq<char>)
    requires
        !name.contains('/'),
    ensures
        text::last_index(dir + seq!['/'] + name, '/') == Some(dir.len() as int),
    decreases name.len(),
{
    let p = dir + seq!['/'] + name;
    if name.len() > 0 {
        let m = name.drop_last();
        assert(!m.contains('/')) by {
            if m.contains('/') {
                let i = choose|i: int| 0 <= i < m.len() && m[i] == '/';
                assert(name[i] == '/');
            }
        }
        slash_before(dir, m);
        assert(p.drop_last() == dir + seq!['/'] + m);
        assert(name[name.len() - 1] != '/');
        assert(p.last() == name.last());
    }
}

/// Where several names could be meant, what they share is typed, and all of them are shown.
pub proof fn shared_start_is_typed(
    s: ShellView,
    base: Seq<char>,
    pattern: Seq<char>,
    items: Seq<Seq<char>>,
)
    requires
        items.len() > 1,
        common_prefix(items).len() > 0,
        common_prefix(items) != pattern,
    ensures
        s.completed(base, pattern, items).input == cd_command(base, common_prefix(items)),
        s.completed(base, pattern, items).completions == items,
        s.completed(base, pattern, items).lines == s.lines.push("> "@ + text::joined(items, "  "@)),
{
}

/// Each further Up goes one line back in the history, as far as there is one, and Down goes forth
/// again.
pub proof fn history_is_gone_through(s: ShellView, i: usize)
    requires
        s.hist_idx == Some(i),
        i < s.history.len() <= usize::MAX,
    ensures
        i > 0 ==> s.on_key(pressed(KeyCode::Up)).0.input == s.history[i - 1],
        i > 0 ==> s.on_key(pressed(KeyCode::Up)).0.on_key(pressed(KeyCode::Down)).0.input
            == s.history[i as int],
        i == 0 ==> s.on_key(pressed(KeyCode::Up)).0.input == s.history[0],
        i + 1 < s.history.len() ==> s.on_key(pressed(KeyCode::Down)).0.input == s.history[i + 1],
        i + 1 == s.history.len() ==> s.on_key(pressed(KeyCode::Down)).0.input.len() == 0,
        s.on_key(pressed(KeyCode::Up)).0.history == s.history,
{
}

/// PageUp shows the lines above and PageDown goes back, and neither goes past the lines there are.
pub proof fn shell_pages(s: ShellView, rows: int)
    requires
        rows > 0,
        s.scroll + 6 < s.lines.len() <= usize::MAX,
    ensures
        ({
            let up = s.on_key(pressed(KeyCode::PageUp)).0;
            &&& up.shown(rows).1 == s.shown(rows).1 - 5
            &&& up.on_key(pressed(KeyCode::PageDown)).0.shown(rows) == s.shown(rows)
            &&& up.lines == s.lines
        }),
{
}

/// Suggestions stand in order.
pub proof fn suggestions_are_sorted(out: Seq<char>)
    ensures
        text::in_order(listed(out)),
{
    text::sorted_texts_in_order(
        crate::containers::shell::without_dots(
            text::nonempty(crate::containers::shell::trimmed_all(text::lines_of(out))),
        ),
    );
}

/// A failed `cd` is told with what was typed.
pub proof fn failed_cd_is_told(s: ShellView, arg: Seq<char>, target: Seq<char>, e: Seq<char>)
    ensures
        ({
            let t = s.finish(ShellJobView::Cd { arg, target }, Err(e));
            &&& t.lines == s.lines.push("cd: "@ + arg + ": no such file or directory"@)
            &&& t.cwd == s.cwd && t.prev_cwd == s.prev_cwd
        }),
{
}

} // verus!
