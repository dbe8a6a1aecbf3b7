//! What is read from the engine's listings.

use crate::compose::{fs_projects, is_compose_file, DirEntry};
use crate::networks::{row_of, rows_of, NetworkModel};
use crate::text;
use vstd::prelude::*;

verus! {

/// A field of a listing: not empty, without a tab, and without white space at its ends.
pub open spec fn is_field(s: Seq<char>) -> bool {
    &&& s.len() > 0
    &&& !s.contains('\t')
    &&& !text::is_white(s[0])
    &&& !text::is_white(s.last())
}

/// A line of the networks' listing names an id, a name, a driver and a scope, in this order, with
/// tabs between them.
pub proof fn network_line_is_read(
    id: Seq<char>,
    name: Seq<char>,
    driver: Seq<char>,
    scope: Seq<char>,
)
    requires
        is_field(id),
        is_field(name),
        is_field(driver),
        is_field(scope),
    ensures
        row_of(id + seq!['\t'] + name + seq!['\t'] + driver + seq!['\t'] + scope) == Some(
            NetworkModel { id, name, driver, scope },
        ),
        row_of(id + seq!['\t'] + name) is None,
{
    let tab = seq!['\t'];
    let l = seq![id, name, driver, scope];
    let line = id + tab + name + tab + driver + tab + scope;
    assert(line[0] == id[0]);
    assert(line.last() == scope.last());
    assert(text::trimmed(line) == line);
    one_part(id);
    one_part(name);
    one_part(driver);
    one_part(scope);
    text::parts_of_two(id, name, '\t');
    text::parts_of_two(id + tab + name, driver, '\t');
    text::parts_of_two(id + tab + name + tab + driver, scope, '\t');
    assert(text::parts(line, '\t') == l);
    let short = id + tab + name;
    assert(short[0] == id[0]);
    assert(short.last() == name.last());
    assert(text::trimmed(short) == short);
    assert(text::parts(short, '\t') == seq![id, name]);
}

proof fn one_part(s: Seq<char>)
    requires
        !s.contains('\t'),
    ensures
        text::parts(s, '\t') == seq![s],
{
    let l = seq![s];
    text::parts_of_joined(l, '\t');
    assert(text::joined(l, seq!['\t']) == s);
}

/// Each line of a listing that names a network adds it behind the others; other lines add none.
pub proof fn networks_come_line_by_line(lines: Seq<Seq<char>>, line: Seq<char>)
    ensures
        row_of(line) matches Some(m) ==> rows_of(lines.push(line)) == rows_of(lines).push(m),
        row_of(line) is None ==> rows_of(lines.push(line)) == rows_of(lines),
        rows_of(Seq::empty()).len() == 0,
{
    assert(lines.push(line).drop_last() == lines);
}

/// A file of one of the four names makes the directory a project, in the directory and with the
/// file; other files and directories do not.
pub proof fn compose_files_make_projects(cwd: Seq<char>, l: Seq<DirEntry>, e: DirEntry, name: String)
    requires
        e.name == Some(name),
    ensures
        is_compose_file(name@) <==> name@ == "docker-compose.yml"@ || name@
            == "docker-compose.yaml"@ || name@ == "compose.yml"@ || name@ == "compose.yaml"@,
        ({
            let before = fs_projects(cwd, l);
            let after = fs_projects(cwd, l.push(e));
            if e.is_file && is_compose_file(name@) {
                &&& after.len() == before.len() + 1
                &&& after.drop_last() == before
                &&& after.last().path == cwd
                &&& after.last().file_name == name@
                &&& after.last().status is None
            } else {
                after == before
            }
        }),
{
    assert(l.push(e).drop_last() == l);
    let before = fs_projects(cwd, l);
    let after = fs_projects(cwd, l.push(e));
    if e.is_file && is_compose_file(name@) {
        assert(after.drop_last() == before);
    }
}

} // verus!
