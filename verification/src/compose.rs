//! The list of compose projects.

use crate::containers::util::{middle_cut, truncate_middle};
use crate::json::{self, json_of, Json, JsonView};
use crate::key::{KeyCode, KeyEvent};
use crate::list;
use crate::networks::{all_held, holds_all};
use crate::order::{arrange, arranged, positions, SortValue, SortValueView};
use crate::output::{code_text, lossy, lossy_text, show_code, CommandOutput};
use crate::text;
use crate::theme::{note_view, Color, Note, Theme};
use vstd::prelude::*;

verus! {

/* ---------------- paths ---------------- */

// Paths are those of Unix, where the engine's socket is.

/// Of the parts between the slashes of a path those that count: an empty one does not, and `.` only
/// at the start.
pub open spec fn counted_parts(l: Seq<Seq<char>>) -> Seq<Seq<char>>
    decreases l.len(),
{
    if l.len() == 0 {
        Seq::empty()
    } else {
        let before = counted_parts(l.drop_last());
        if l.last().len() == 0 || (l.last() == "."@ && l.len() > 1) {
            before
        } else {
            before.push(l.last())
        }
    }
}

/// The components of a path: the root, if it begins there, and the parts that count.
pub open spec fn components(p: Seq<char>) -> Seq<Seq<char>> {
    (if text::begins(p, "/"@) {
        seq!["/"@]
    } else {
        Seq::empty()
    }) + counted_parts(text::parts(p, '/'))
}

/// The last component of a path, if it is a name.
pub open spec fn file_name_of(p: Seq<char>) -> Option<Seq<char>> {
    let l = components(p);
    if l.len() == 0 || l.last() == "/"@ || l.last() == "."@ || l.last() == ".."@ {
        None
    } else {
        Some(l.last())
    }
}

/// `std::path::Path::file_name`, on Unix: the last component of a path, if it is a name.
#[verifier::external_body]
fn path_file_name(p: &str) -> (r: Option<String>)
    ensures
        r.deep_view() == file_name_of(p@),
{
    std::path::Path::new(p).file_name().map(|s| s.to_string_lossy().to_string())
}

/// What `Path::parent` gives for a path.
pub uninterp spec fn parent_of(p: Seq<char>) -> Option<Seq<char>>;

/// Has a path something before its last component? The root has not, nor has the empty path.
pub open spec fn has_parent(p: Seq<char>) -> bool {
    components(p).len() > 0 && components(p).last() != "/"@
}

/// `std::path::Path::parent`, on Unix: a path with all components but the last, if there is one
/// and it is not the root. The result depends on the path alone. How many of the slashes before
/// the last component it keeps is left unsaid, which the documentation does not tell.
#[verifier::external_body]
fn path_parent(p: &str) -> (r: Option<String>)
    ensures
        r.deep_view() == parent_of(p@),
        r is Some == has_parent(p@),
        r matches Some(d) ==> components(d@) == components(p@).drop_last(),
{
    std::path::Path::new(p).parent().map(|s| s.to_string_lossy().to_string())
}

/// Two paths are the same if their components are.
pub open spec fn same_place(a: Seq<char>, b: Seq<char>) -> bool {
    components(a) == components(b)
}

/// `==` on `std::path::Path`, on Unix: it compares the components.
#[verifier::external_body]
fn is_same_path(a: &str, b: &str) -> (r: bool)
    ensures
        r == same_place(a@, b@),
{
    std::path::Path::new(a) == std::path::Path::new(b)
}

/* ---------------- projects ---------------- */

pub struct ComposeProject {
    pub name: String,
    /// The directory.
    pub path: String,
    /// The compose file in it.
    pub file_name: String,
    pub status: Option<String>,
}

#[verifier::ext_equal]
pub struct ProjectModel {
    pub name: Seq<char>,
    pub path: Seq<char>,
    pub file_name: Seq<char>,
    pub status: Option<Seq<char>>,
}

impl View for ComposeProject {
    type V = ProjectModel;

    open spec fn view(&self) -> ProjectModel {
        ProjectModel {
            name: self.name@,
            path: self.path@,
            file_name: self.file_name@,
            status: self.status.deep_view(),
        }
    }
}

impl DeepView for ComposeProject {
    type V = ProjectModel;

    open spec fn deep_view(&self) -> ProjectModel {
        self@
    }
}

fn copy_project(p: &ComposeProject) -> (r: ComposeProject)
    ensures
        r@ == p@,
{
    ComposeProject {
        name: p.name.clone(),
        path: p.path.clone(),
        file_name: p.file_name.clone(),
        status: match &p.status {
            Some(s) => Some(s.clone()),
            None => None,
        },
    }
}

/// The first of some texts that is not empty when it is trimmed.
pub open spec fn first_filled(l: Seq<Seq<char>>) -> Option<Seq<char>>
    decreases l.len(),
{
    if l.len() == 0 {
        None
    } else {
        match first_filled(l.drop_last()) {
            Some(s) => Some(s),
            None => if text::trimmed(l.last()).len() > 0 {
                Some(text::trimmed(l.last()))
            } else {
                None
            },
        }
    }
}

/// The directory and the file of a project, by the list of its files or by its directory.
pub open spec fn project_place(config: Seq<char>, working_dir: Seq<char>) -> (Seq<char>, Seq<char>) {
    match first_filled(text::parts(config, ',')) {
        Some(p) => (
            match parent_of(p) {
                Some(d) => d,
                None => Seq::empty(),
            },
            match file_name_of(p) {
                Some(f) => f,
                None => "docker-compose.yml"@,
            },
        ),
        None => (
            if working_dir.len() == 0 {
                "."@
            } else {
                working_dir
            },
            "docker-compose.yml"@,
        ),
    }
}

/// An entry of the listing, as a project.
pub open spec fn project_of(entry: JsonView) -> ProjectModel {
    let name = entry.member_text("Name"@);
    let status = entry.member_text("Status"@);
    let (path, file_name) = project_place(
        entry.member_text("ConfigFiles"@),
        entry.member_text("WorkingDir"@),
    );
    ProjectModel {
        name: if name.len() == 0 {
            file_name
        } else {
            name
        },
        path,
        file_name,
        status: if status.len() == 0 {
            None
        } else {
            Some(status)
        },
    }
}

/// The projects of a listing: one for each entry of a list, none for anything else.
pub open spec fn projects_of(j: JsonView) -> Seq<ProjectModel> {
    match j {
        JsonView::List(l) => Seq::new(l.len(), |i: int| project_of(l[i])),
        _ => Seq::empty(),
    }
}

/// The projects that the engine's listing names: none where the listing failed or is no JSON.
pub open spec fn listed_projects(out: CommandOutput) -> Seq<ProjectModel> {
    if !out.success {
        Seq::empty()
    } else {
        match json_of(lossy(out.stdout@)) {
            Some(j) => projects_of(j),
            None => Seq::empty(),
        }
    }
}

fn find_filled(l: &Vec<String>) -> (r: Option<String>)
    ensures
        r.deep_view() == first_filled(l.deep_view()),
{
    let ghost lv = l.deep_view();
    let mut i: usize = 0;
    assert(lv.take(0) == Seq::<Seq<char>>::empty());
    while i < l.len()
        invariant
            i <= l@.len(),
            lv == l.deep_view(),
            first_filled(lv.take(i as int)) is None,
        decreases l@.len() - i,
    {
        assert(lv.take(i + 1).drop_last() == lv.take(i as int));
        assert(lv[i as int] == l@[i as int]@);
        let t = text::trim(l[i].as_str());
        if !t.as_str().is_empty() {
            proof {
                first_filled_grows(lv, i + 1);
            }
            return Some(t);
        }
        i += 1;
    }
    assert(lv.take(lv.len() as int) == lv);
    None
}

proof fn first_filled_grows(l: Seq<Seq<char>>, i: int)
    requires
        0 <= i <= l.len(),
        first_filled(l.take(i)) is Some,
    ensures
        first_filled(l) == first_filled(l.take(i)),
    decreases l.len(),
{
    if i < l.len() {
        assert(l.drop_last().take(i) == l.take(i));
        first_filled_grows(l.drop_last(), i);
    } else {
        assert(l.take(i) == l);
    }
}

fn place_of(config: &str, working_dir: &str) -> (r: (String, String))
    ensures
        (r.0@, r.1@) == project_place(config@, working_dir@),
{
    let files = text::split(config, ',');
    match find_filled(&files) {
        Some(p) => {
            let dir = match path_parent(p.as_str()) {
                Some(d) => d,
                None => String::new(),
            };
            let file = match path_file_name(p.as_str()) {
                Some(f) => f,
                None => "docker-compose.yml".to_owned(),
            };
            (dir, file)
        },
        None => {
            let dir = if working_dir.is_empty() {
                ".".to_owned()
            } else {
                working_dir.to_owned()
            };
            (dir, "docker-compose.yml".to_owned())
        },
    }
}

fn project_from(entry: &Json) -> (r: ComposeProject)
    ensures
        r@ == project_of(entry.model()),
{
    let name = entry.member_text("Name");
    let status = entry.member_text("Status");
    let config = entry.member_text("ConfigFiles");
    let working_dir = entry.member_text("WorkingDir");
    let (path, file_name) = place_of(config.as_str(), working_dir.as_str());
    ComposeProject {
        name: if name.as_str().is_empty() {
            file_name.clone()
        } else {
            name
        },
        path,
        file_name,
        status: if status.as_str().is_empty() {
            None
        } else {
            Some(status)
        },
    }
}

/// The projects that a parsed listing names.
pub fn projects_from_json(j: &Json) -> (r: Vec<ComposeProject>)
    ensures
        r.deep_view() == projects_of(j.model()),
{
    let mut out: Vec<ComposeProject> = Vec::new();
    match j {
        Json::List(l) => {
            let ghost lv = j.model()->List_0;
            let ghost all = projects_of(j.model());
            let mut i: usize = 0;
            while i < l.len()
                invariant
                    i <= l@.len(),
                    lv.len() == l@.len(),
                    forall|k: int| 0 <= k < l@.len() ==> #[trigger] lv[k] == l@[k].model(),
                    all == Seq::new(lv.len(), |i: int| project_of(lv[i])),
                    out.deep_view() == all.take(i as int),
                decreases l@.len() - i,
            {
                assert(lv[i as int] == l@[i as int].model());
                let ghost before = out.deep_view();
                let p = project_from(&l[i]);
                out.push(p);
                assert(out.deep_view() == before.push(p@));
                assert(all.take(i + 1) == all.take(i as int).push(all[i as int]));
                i += 1;
            }
            assert(all.take(all.len() as int) == all);
        },
        _ => {},
    }
    out
}

/// The arguments with which `docker` lists the projects.
pub fn list_args() -> (r: Vec<String>)
    ensures
        r.deep_view() == seq!["compose"@, "ls"@, "--format"@, "json"@],
{
    let mut args: Vec<String> = Vec::new();
    text::push_text(&mut args, "compose".to_owned());
    text::push_text(&mut args, "ls".to_owned());
    text::push_text(&mut args, "--format".to_owned());
    text::push_text(&mut args, "json".to_owned());
    assert(args.deep_view() == seq!["compose"@, "ls"@, "--format"@, "json"@]);
    args
}

/// The projects that the engine's listing names.
pub fn projects_from_docker_ls(out: &CommandOutput) -> (r: Vec<ComposeProject>)
    ensures
        r.deep_view() == listed_projects(*out),
{
    if !out.success {
        return Vec::new();
    }
    let t = lossy_text(out.stdout.as_slice());
    match json::read(t.as_str()) {
        Some(j) => projects_from_json(&j),
        None => Vec::new(),
    }
}

/// An entry of a directory.
pub struct DirEntry {
    pub is_file: bool,
    /// Its name, if it is a text.
    pub name: Option<String>,
}

pub open spec fn is_compose_file(name: Seq<char>) -> bool {
    name == "docker-compose.yml"@ || name == "docker-compose.yaml"@ || name == "compose.yml"@
        || name == "compose.yaml"@
}

pub open spec fn fs_project(cwd: Seq<char>, file: Seq<char>) -> ProjectModel {
    ProjectModel {
        name: match file_name_of(cwd) {
            Some(n) => n,
            None => "."@,
        },
        path: cwd,
        file_name: file,
        status: None,
    }
}

/// The projects of a directory: one for each compose file in it.
pub open spec fn fs_projects(cwd: Seq<char>, l: Seq<DirEntry>) -> Seq<ProjectModel>
    decreases l.len(),
{
    if l.len() == 0 {
        Seq::empty()
    } else {
        let before = fs_projects(cwd, l.drop_last());
        match l.last().name {
            Some(n) => if l.last().is_file && is_compose_file(n@) {
                before.push(fs_project(cwd, n@))
            } else {
                before
            },
            None => before,
        }
    }
}

fn is_candidate(name: &str) -> (r: bool)
    ensures
        r == is_compose_file(name@),
{
    text::same(name, "docker-compose.yml") || text::same(name, "docker-compose.yaml")
        || text::same(name, "compose.yml") || text::same(name, "compose.yaml")
}

/// The projects of the directory `cwd`, whose entries are given.
pub fn projects_from_fs(cwd: &str, entries: &Vec<DirEntry>) -> (r: Vec<ComposeProject>)
    ensures
        r.deep_view() == fs_projects(cwd@, entries@),
{
    let mut out: Vec<ComposeProject> = Vec::new();
    let mut i: usize = 0;
    assert(out.deep_view() == fs_projects(cwd@, entries@.take(0)));
    while i < entries.len()
        invariant
            i <= entries@.len(),
            out.deep_view() == fs_projects(cwd@, entries@.take(i as int)),
        decreases entries@.len() - i,
    {
        assert(entries@.take(i + 1).drop_last() == entries@.take(i as int));
        let ghost before = out.deep_view();
        match &entries[i].name {
            Some(n) => {
                if entries[i].is_file && is_candidate(n.as_str()) {
                    let p = ComposeProject {
                        name: match path_file_name(cwd) {
                            Some(s) => s,
                            None => ".".to_owned(),
                        },
                        path: cwd.to_owned(),
                        file_name: n.clone(),
                        status: None,
                    };
                    out.push(p);
                    assert(out.deep_view() == before.push(p@));
                }
            },
            None => {},
        }
        i += 1;
    }
    assert(entries@.take(entries@.len() as int) == entries@);
    out
}

/* ---------------- one row for each project ---------------- */

/// Two projects with one file.
pub open spec fn same_project(a: ProjectModel, b: ProjectModel) -> bool {
    same_place(a.path, b.path) && a.file_name == b.file_name
}

/// Is there none further on with the same file?
pub open spec fn is_last(l: Seq<ProjectModel>, i: int) -> bool {
    forall|j: int| i < j < l.len() ==> !same_project(l[i], #[trigger] l[j])
}

/// The project is told by its name, and then by its file.
pub open spec fn project_key(p: ProjectModel) -> SortValueView {
    SortValueView::Pair(p.name, p.file_name)
}

pub open spec fn last_flags(l: Seq<ProjectModel>) -> Seq<bool> {
    Seq::new(l.len(), |i: int| is_last(l, i))
}

pub open spec fn project_keys(l: Seq<ProjectModel>) -> Seq<SortValueView> {
    Seq::new(l.len(), |i: int| project_key(l[i]))
}

/// Projects without those that a later one with the same file stands for, in order of name and
/// file.
pub open spec fn merged(l: Seq<ProjectModel>) -> Seq<ProjectModel> {
    let order = arranged(last_flags(l), project_keys(l), true);
    Seq::new(order.len(), |i: int| l[order[i]])
}

/// The projects of a directory, enriched with those of a listing: there is one row for each file,
/// and the listing tells its name and its status where it knows it.
pub open spec fn enriched(found: Seq<ProjectModel>, listed: Seq<ProjectModel>) -> Seq<ProjectModel> {
    merged(found + listed)
}

/// In the merged list no two projects have one file.
pub proof fn merged_has_no_doubles(l: Seq<ProjectModel>, i: int, j: int)
    requires
        0 <= i < merged(l).len(),
        0 <= j < merged(l).len(),
        i != j,
    ensures
        !same_project(merged(l)[i], merged(l)[j]),
{
    let order = arranged(last_flags(l), project_keys(l), true);
    crate::order::arranged_is_sorted(last_flags(l), project_keys(l), true);
    let a = order[i];
    let b = order[j];
    assert(order.contains(a));
    assert(order.contains(b));
    assert(last_flags(l)[a] && last_flags(l)[b]);
    if a < b {
        assert(!same_project(l[a], l[b]));
    } else {
        assert(!same_project(l[b], l[a]));
    }
}

proof fn last_one_is_kept(l: Seq<ProjectModel>, i: int)
    requires
        0 <= i < l.len(),
        is_last(l, i),
    ensures
        merged(l).contains(l[i]),
{
    let order = arranged(last_flags(l), project_keys(l), true);
    crate::order::arranged_is_sorted(last_flags(l), project_keys(l), true);
    assert(last_flags(l)[i]);
    assert(order.contains(i));
    let k = choose|k: int| 0 <= k < order.len() && order[k] == i;
    assert(merged(l)[k] == l[i]);
}

/// Every project has a row: the project itself, or another one with its file.
pub proof fn merged_leaves_none_out(l: Seq<ProjectModel>, i: int)
    requires
        0 <= i < l.len(),
    ensures
        exists|k: int| 0 <= k < merged(l).len() && same_project(l[i], #[trigger] merged(l)[k]),
    decreases l.len() - i,
{
    if is_last(l, i) {
        last_one_is_kept(l, i);
        let k = choose|k: int| 0 <= k < merged(l).len() && merged(l)[k] == l[i];
        assert(same_project(l[i], merged(l)[k]));
    } else {
        let j = choose|j: int| i < j < l.len() && same_project(l[i], #[trigger] l[j]);
        merged_leaves_none_out(l, j);
        let k = choose|k: int|
            0 <= k < merged(l).len() && same_project(l[j], #[trigger] merged(l)[k]);
        assert(same_project(l[i], merged(l)[k]));
    }
}

/// What the listing says of a project stays: its row has the name and the status that the listing
/// gives, though the project was found in the directory too. (Of entries of the listing with one
/// file, the last counts.)
pub proof fn listing_enriches(found: Seq<ProjectModel>, listed: Seq<ProjectModel>, i: int)
    requires
        0 <= i < listed.len(),
        is_last(listed, i),
    ensures
        enriched(found, listed).contains(listed[i]),
{
    let all = found + listed;
    let at = found.len() + i;
    assert(all[at] == listed[i]);
    assert forall|j: int| at < j < all.len() implies !same_project(all[at], #[trigger] all[j]) by {
        assert(all[j] == listed[j - found.len()]);
    }
    last_one_is_kept(all, at);
}

/// A row with the file of a project that the listing names, wherever else it was found, is that of
/// the listing.
pub proof fn listing_is_not_replaced(
    found: Seq<ProjectModel>,
    listed: Seq<ProjectModel>,
    i: int,
    k: int,
)
    requires
        0 <= i < listed.len(),
        is_last(listed, i),
        0 <= k < enriched(found, listed).len(),
        same_project(enriched(found, listed)[k], listed[i]),
    ensures
        enriched(found, listed)[k] == listed[i],
{
    listing_enriches(found, listed, i);
    let rows = enriched(found, listed);
    let j = choose|j: int| 0 <= j < rows.len() && rows[j] == listed[i];
    if j != k {
        merged_has_no_doubles(found + listed, k, j);
    }
}

fn is_last_one(l: &Vec<ComposeProject>, i: usize) -> (r: bool)
    requires
        i < l@.len(),
    ensures
        r == is_last(l.deep_view(), i as int),
{
    let ghost lv = l.deep_view();
    let n: usize = l.len();
    let mut j: usize = i + 1;
    assert(lv[i as int] == l@[i as int]@);
    while j < n
        invariant
            i < j <= n,
            n == l@.len(),
            lv == l.deep_view(),
            lv[i as int] == l@[i as int]@,
            forall|k: int| i < k < j ==> !same_project(lv[i as int], #[trigger] lv[k]),
        decreases n - j,
    {
        assert(lv[j as int] == l@[j as int]@);
        if is_same_path(l[i].path.as_str(), l[j].path.as_str()) && text::same(
            l[i].file_name.as_str(),
            l[j].file_name.as_str(),
        ) {
            return false;
        }
        j += 1;
    }
    true
}

/// Puts the projects of a directory and of a listing together.
pub fn merge_projects(found: Vec<ComposeProject>, listed: Vec<ComposeProject>) -> (r: Vec<
    ComposeProject,
>)
    ensures
        r.deep_view() == enriched(found.deep_view(), listed.deep_view()),
{
    let ghost sum = found.deep_view() + listed.deep_view();
    let mut all = found;
    let mut listed = listed;
    all.append(&mut listed);
    assert(all.deep_view() == sum);
    merge_all(&all)
}

fn merge_all(l: &Vec<ComposeProject>) -> (r: Vec<ComposeProject>)
    ensures
        r.deep_view() == merged(l.deep_view()),
{
    let ghost lv = l.deep_view();
    let mut keep: Vec<bool> = Vec::new();
    let mut keys: Vec<SortValue> = Vec::new();
    let mut i: usize = 0;
    assert(keys.deep_view() == project_keys(lv).take(0));
    while i < l.len()
        invariant
            i <= l@.len(),
            lv == l.deep_view(),
            keep@ == last_flags(lv).take(i as int),
            keys.deep_view() == project_keys(lv).take(i as int),
        decreases l@.len() - i,
    {
        assert(lv[i as int] == l@[i as int]@);
        keep.push(is_last_one(l, i));
        let ghost before = keys.deep_view();
        let k = SortValue::Pair(l[i].name.clone(), l[i].file_name.clone());
        keys.push(k);
        assert(keys.deep_view() == before.push(k@));
        assert(project_keys(lv).take(i + 1) == project_keys(lv).take(i as int).push(
            project_keys(lv)[i as int],
        ));
        assert(last_flags(lv).take(i + 1) == last_flags(lv).take(i as int).push(
            last_flags(lv)[i as int],
        ));
        i += 1;
    }
    assert(last_flags(lv).take(lv.len() as int) == last_flags(lv));
    assert(project_keys(lv).take(lv.len() as int) == project_keys(lv));
    let order = arrange(&keep, &keys, true);
    let ghost ov = positions(order@);
    let ghost all = merged(lv);
    assert(all.len() == order@.len());
    let mut out: Vec<ComposeProject> = Vec::new();
    let mut k: usize = 0;
    while k < order.len()
        invariant
            k <= order@.len(),
            lv == l.deep_view(),
            keep@.len() == l@.len(),
            forall|i: int| 0 <= i < order@.len() ==> #[trigger] order@[i] < keep@.len(),
            ov == positions(order@),
            ov == arranged(last_flags(lv), project_keys(lv), true),
            all == merged(lv),
            out.deep_view() == all.take(k as int),
        decreases order@.len() - k,
    {
        let x: usize = order[k];
        assert(ov[k as int] == x);
        assert(lv[x as int] == l@[x as int]@);
        let ghost before = out.deep_view();
        let p = copy_project(&l[x]);
        out.push(p);
        assert(out.deep_view() == before.push(p@));
        assert(all.take(k + 1) == all.take(k as int).push(all[k as int]));
        k += 1;
    }
    assert(all.take(all.len() as int) == all);
    out
}

/* ---------------- finding ---------------- */

impl ProjectModel {
    pub open spec fn status_text(self) -> Seq<char> {
        match self.status {
            Some(s) => s,
            None => "-"@,
        }
    }

    /// What a query is looked for in.
    pub open spec fn hay(self) -> Seq<char> {
        text::lowercase(self.name) + " "@ + text::lowercase(self.file_name) + " "@
            + text::lowercase(self.status_text()) + " "@ + text::lowercase(self.path)
    }
}

fn status_of(p: &ComposeProject) -> (r: String)
    ensures
        r@ == p@.status_text(),
{
    match &p.status {
        Some(s) => s.clone(),
        None => "-".to_owned(),
    }
}

/// Does a project meet a query?
pub fn match_visible(p: &ComposeProject, tokens: &Vec<String>) -> (r: bool)
    ensures
        r == all_held(p@.hay(), tokens.deep_view()),
{
    let mut hay = text::cat3(
        text::lower(p.name.as_str()).as_str(),
        " ",
        text::lower(p.file_name.as_str()).as_str(),
    );
    hay.append(" ");
    hay.append(text::lower(status_of(p).as_str()).as_str());
    hay.append(" ");
    hay.append(text::lower(p.path.as_str()).as_str());
    holds_all(hay.as_str(), tokens)
}

/// The cells of a project: its name, its status, its file and its directory.
pub fn project_cells(p: &ComposeProject) -> (r: (String, String, String, String))
    ensures
        r.0@ == p@.name,
        r.1@ == p@.status_text(),
        r.2@ == p@.file_name,
        r.3@ == middle_cut(p@.path, 60),
{
    (
        p.name.clone(),
        status_of(p),
        p.file_name.clone(),
        truncate_middle(p.path.as_str(), 60),
    )
}

/* ---------------- commands ---------------- */

#[derive(Clone, Copy, Debug, PartialEq, Eq, Structural)]
pub enum ComposeCommand {
    Up,
    Down,
    Ps,
    Logs,
}

/// What stands behind the file in a command.
pub open spec fn command_words(c: ComposeCommand) -> Seq<Seq<char>> {
    match c {
        ComposeCommand::Up => seq!["up"@, "-d"@],
        ComposeCommand::Down => seq!["down"@],
        ComposeCommand::Ps => seq!["ps"@],
        ComposeCommand::Logs => seq!["logs"@, "--tail=50"@],
    }
}

/// The arguments with which `docker` carries out a command on a compose file.
pub fn compose_args(file_name: &str, c: ComposeCommand) -> (r: Vec<String>)
    ensures
        r.deep_view() == seq!["compose"@, "-f"@, file_name@] + command_words(c),
        c == ComposeCommand::Up ==> r.deep_view() == seq![
            "compose"@,
            "-f"@,
            file_name@,
            "up"@,
            "-d"@,
        ],
        c == ComposeCommand::Down ==> r.deep_view() == seq!["compose"@, "-f"@, file_name@, "down"@],
        c == ComposeCommand::Ps ==> r.deep_view() == seq!["compose"@, "-f"@, file_name@, "ps"@],
        c == ComposeCommand::Logs ==> r.deep_view() == seq![
            "compose"@,
            "-f"@,
            file_name@,
            "logs"@,
            "--tail=50"@,
        ],
{
    let mut args: Vec<String> = Vec::new();
    text::push_text(&mut args, "compose".to_owned());
    text::push_text(&mut args, "-f".to_owned());
    text::push_text(&mut args, file_name.to_owned());
    match c {
        ComposeCommand::Up => {
            text::push_text(&mut args, "up".to_owned());
            text::push_text(&mut args, "-d".to_owned());
        },
        ComposeCommand::Down => text::push_text(&mut args, "down".to_owned()),
        ComposeCommand::Ps => text::push_text(&mut args, "ps".to_owned()),
        ComposeCommand::Logs => {
            text::push_text(&mut args, "logs".to_owned());
            text::push_text(&mut args, "--tail=50".to_owned());
        },
    }
    assert(args.deep_view() == seq!["compose"@, "-f"@, file_name@] + command_words(c));
    args
}

/// What a command came to: what it wrote, or an error.
pub open spec fn command_result(r: Result<CommandOutput, String>) -> Result<Seq<char>, Seq<char>> {
    match r {
        Ok(out) => if out.success {
            Ok(out.all_text())
        } else {
            Err(
                "docker compose failed (code="@ + code_text(out.code) + "): "@ + out.all_text(),
            )
        },
        Err(e) => Err(e@),
    }
}

/// What a command came to.
pub fn compose_cmd(r: Result<CommandOutput, String>) -> (s: Result<String, String>)
    ensures
        match s {
            Ok(t) => command_result(r) == Ok::<Seq<char>, Seq<char>>(t@),
            Err(e) => command_result(r) == Err::<Seq<char>, Seq<char>>(e@),
        },
{
    match r {
        Ok(out) => {
            let t = out.text();
            if out.success {
                Ok(t)
            } else {
                let mut e = text::cat3(
                    "docker compose failed (code=",
                    show_code(out.code).as_str(),
                    "): ",
                );
                e.append(t.as_str());
                Err(e)
            }
        },
        Err(e) => Err(e),
    }
}

pub open spec fn command_name(c: ComposeCommand) -> Seq<char> {
    match c {
        ComposeCommand::Up => "compose up: "@,
        ComposeCommand::Down => "compose down: "@,
        ComposeCommand::Ps => "compose ps: "@,
        ComposeCommand::Logs => "compose logs: "@,
    }
}

pub open spec fn output_title(c: ComposeCommand, name: Seq<char>) -> Seq<char> {
    (match c {
        ComposeCommand::Up => "docker compose up -d ("@,
        ComposeCommand::Down => "docker compose down ("@,
        ComposeCommand::Ps => "docker compose ps ("@,
        ComposeCommand::Logs => "docker compose logs ("@,
    }) + name + ")"@
}

fn command_text(c: ComposeCommand) -> (r: String)
    ensures
        r@ == command_name(c),
{
    match c {
        ComposeCommand::Up => "compose up: ".to_owned(),
        ComposeCommand::Down => "compose down: ".to_owned(),
        ComposeCommand::Ps => "compose ps: ".to_owned(),
        ComposeCommand::Logs => "compose logs: ".to_owned(),
    }
}

fn title_text(c: ComposeCommand, name: &str) -> (r: String)
    ensures
        r@ == output_title(c, name@),
{
    let head = match c {
        ComposeCommand::Up => "docker compose up -d (",
        ComposeCommand::Down => "docker compose down (",
        ComposeCommand::Ps => "docker compose ps (",
        ComposeCommand::Logs => "docker compose logs (",
    };
    text::cat3(head, name, ")")
}

/* ---------------- the list ---------------- */

/// What a command wrote.
pub struct Popup {
    pub title: String,
    pub content: String,
}

#[verifier::ext_equal]
pub struct PopupView {
    pub title: Seq<char>,
    pub content: Seq<char>,
}

impl View for Popup {
    type V = PopupView;

    open spec fn view(&self) -> PopupView {
        PopupView { title: self.title@, content: self.content@ }
    }
}

/// What a key asks of the owner of the list.
pub enum ComposeAction {
    Nothing,
    /// Look for projects again, and tell the user.
    Rescan,
    /// Open the compose file in an editor.
    Edit(ComposeProject),
    Run(ComposeCommand, ComposeProject),
}

#[verifier::ext_equal]
pub enum ComposeActionView {
    Nothing,
    Rescan,
    Edit(ProjectModel),
    Run(ComposeCommand, ProjectModel),
}

impl View for ComposeAction {
    type V = ComposeActionView;

    open spec fn view(&self) -> ComposeActionView {
        match self {
            ComposeAction::Nothing => ComposeActionView::Nothing,
            ComposeAction::Rescan => ComposeActionView::Rescan,
            ComposeAction::Edit(p) => ComposeActionView::Edit(p@),
            ComposeAction::Run(c, p) => ComposeActionView::Run(*c, p@),
        }
    }
}

pub struct ComposeView {
    pub theme: Theme,
    pub tick: u64,
    pub rows: Vec<ComposeProject>,
    pub selected: Option<usize>,
    pub last_scan: u64,
    pub searching: bool,
    pub query: String,
    pub popup: Option<Popup>,
    pub last_note: Note,
}

#[verifier::ext_equal]
pub struct ComposeModel {
    pub theme: Theme,
    pub tick: u64,
    pub rows: Seq<ProjectModel>,
    pub selected: Option<usize>,
    pub last_scan: u64,
    pub searching: bool,
    pub query: Seq<char>,
    pub popup: Option<PopupView>,
    pub note: Option<(Seq<char>, Color)>,
}

impl View for ComposeView {
    type V = ComposeModel;

    open spec fn view(&self) -> ComposeModel {
        ComposeModel {
            theme: self.theme,
            tick: self.tick,
            rows: self.rows.deep_view(),
            selected: self.selected,
            last_scan: self.last_scan,
            searching: self.searching,
            query: self.query@,
            popup: match self.popup {
                Some(p) => Some(p@),
                None => None,
            },
            note: note_view(self.last_note),
        }
    }
}

impl ComposeModel {
    pub open spec fn fresh(theme: Theme, now: u64) -> ComposeModel {
        ComposeModel {
            theme,
            tick: 0,
            rows: Seq::empty(),
            selected: None,
            last_scan: now,
            searching: false,
            query: Seq::empty(),
            popup: None,
            note: None,
        }
    }

    pub open spec fn keep(self) -> Seq<bool> {
        Seq::new(
            self.rows.len(),
            |i: int| all_held(self.rows[i].hay(), list::lower_words(text::words(self.query))),
        )
    }

    /// The rows that are shown.
    pub open spec fn visible(self) -> Seq<int> {
        arranged(self.keep(), project_keys(self.rows), true)
    }

    /// The project under the cursor.
    pub open spec fn current(self) -> Option<ProjectModel> {
        match self.selected {
            Some(i) => if i < self.visible().len() {
                Some(self.rows[self.visible()[i as int]])
            } else {
                None
            },
            None => None,
        }
    }

    pub open spec fn say(self, msg: Seq<char>, color: Color) -> ComposeModel {
        ComposeModel { note: Some((msg, color)), ..self }
    }

    pub open spec fn no_project(self) -> ComposeModel {
        self.say("⚠ no project selected"@, self.theme.warn)
    }

    /// The projects were looked for again: in the directory, and in the engine's listing.
    pub open spec fn scanned(
        self,
        found: Seq<ProjectModel>,
        listed: Seq<ProjectModel>,
        now: u64,
    ) -> ComposeModel {
        let m = ComposeModel { rows: enriched(found, listed), last_scan: now, ..self };
        ComposeModel {
            selected: list::clamped_cursor(m.selected, m.visible().len() as int),
            ..m
        }
    }

    pub open spec fn search_key(self, key: KeyEvent) -> ComposeModel {
        let (open, query) = list::searched(self.query, key);
        let m = ComposeModel { searching: open, query, ..self };
        ComposeModel {
            selected: list::clamped_cursor(m.selected, m.visible().len() as int),
            ..m
        }
    }

    pub open spec fn run_key(self, c: ComposeCommand) -> (ComposeModel, ComposeActionView) {
        match self.current() {
            Some(p) => (self, ComposeActionView::Run(c, p)),
            None => (self.no_project(), ComposeActionView::Nothing),
        }
    }

    pub open spec fn list_key(self, key: KeyEvent) -> (ComposeModel, ComposeActionView) {
        let none = ComposeActionView::Nothing;
        let n = self.visible().len() as int;
        let down = ComposeModel { selected: list::moved_cursor(self.selected, n, 1), ..self };
        let up = ComposeModel { selected: list::moved_cursor(self.selected, n, -1), ..self };
        match key.code {
            KeyCode::Down => (down, none),
            KeyCode::Up => (up, none),
            KeyCode::F(5) => (self, ComposeActionView::Rescan),
            KeyCode::Char(c) => if c == 'j' {
                (down, none)
            } else if c == 'k' {
                (up, none)
            } else if c == 'r' {
                (self, ComposeActionView::Rescan)
            } else if c == '/' {
                (ComposeModel { searching: true, query: Seq::empty(), ..self }, none)
            } else if c == 'e' {
                match self.current() {
                    Some(p) => (self, ComposeActionView::Edit(p)),
                    None => (self.no_project(), none),
                }
            } else if c == 'u' {
                self.run_key(ComposeCommand::Up)
            } else if c == 'd' {
                self.run_key(ComposeCommand::Down)
            } else if c == 's' {
                self.run_key(ComposeCommand::Ps)
            } else if c == 'l' {
                self.run_key(ComposeCommand::Logs)
            } else {
                (self, none)
            },
            _ => (self, none),
        }
    }

    /// A key is pressed: it goes to the popup, to the search line or to the list, whichever is
    /// open first.
    pub open spec fn on_key(self, key: KeyEvent) -> (ComposeModel, ComposeActionView) {
        match self.popup {
            Some(_) => if list::closes(key) {
                (ComposeModel { popup: None, ..self }, ComposeActionView::Nothing)
            } else {
                (self, ComposeActionView::Nothing)
            },
            None => if self.searching {
                (self.search_key(key), ComposeActionView::Nothing)
            } else {
                self.list_key(key)
            },
        }
    }

    pub open spec fn is_modal_open(self) -> bool {
        self.popup is Some || self.searching
    }

    /// What a command came to. What `up` and `down` wrote is shown if it is more than blanks.
    pub open spec fn ran(
        self,
        c: ComposeCommand,
        name: Seq<char>,
        r: Result<Seq<char>, Seq<char>>,
    ) -> ComposeModel {
        match r {
            Ok(out) => {
                let shown = ComposeModel {
                    popup: Some(PopupView { title: output_title(c, name), content: out }),
                    ..self
                };
                match c {
                    ComposeCommand::Up => (if text::trimmed(out).len() > 0 {
                        shown
                    } else {
                        self
                    }).say("🚀 compose up: "@ + name, self.theme.ok),
                    ComposeCommand::Down => (if text::trimmed(out).len() > 0 {
                        shown
                    } else {
                        self
                    }).say("🛑 compose down: "@ + name, self.theme.ok),
                    _ => shown,
                }
            },
            Err(e) => self.say("❌ "@ + command_name(c) + e, self.theme.err),
        }
    }
}

/// The rows that are shown are exactly those that meet the query, each once and in order.
pub proof fn shows_what_meets_the_query(m: ComposeModel)
    ensures
        crate::order::is_arranged(m.visible(), project_keys(m.rows), true),
        m.visible().no_duplicates(),
        forall|k: int| #[trigger]
            m.visible().contains(k) <==> 0 <= k < m.rows.len() && all_held(
                m.rows[k].hay(),
                list::lower_words(text::words(m.query)),
            ),
{
    crate::order::arranged_is_sorted(m.keep(), project_keys(m.rows), true);
}

impl ComposeView {
    pub fn new(theme: Theme, now: u64) -> (r: ComposeView)
        ensures
            r@ == ComposeModel::fresh(theme, now),
    {
        ComposeView {
            theme,
            tick: 0,
            rows: Vec::new(),
            selected: None,
            last_scan: now,
            searching: false,
            query: String::new(),
            popup: None,
            last_note: None,
        }
    }

    pub fn on_tick(&mut self)
        ensures
            final(self)@ == (ComposeModel { tick: old(self)@.tick.wrapping_add(1), ..old(self)@ }),
    {
        self.tick = self.tick.wrapping_add(1);
    }

    pub fn is_modal_open(&self) -> (r: bool)
        ensures
            r == self@.is_modal_open(),
    {
        self.popup.is_some() || self.searching
    }

    pub fn has_modal(&self) -> (r: bool)
        ensures
            r == self@.is_modal_open(),
    {
        self.is_modal_open()
    }

    /// The rows that are shown: those that meet the query, by name and file.
    pub fn visible_indices(&self) -> (r: Vec<usize>)
        ensures
            positions(r@) == self@.visible(),
            forall|i: int| 0 <= i < r@.len() ==> #[trigger] r@[i] < self.rows@.len(),
    {
        let tokens = list::query_words(self.query.as_str());
        let ghost m = self@;
        let ghost pk = project_keys(m.rows);
        let mut keep: Vec<bool> = Vec::new();
        let mut keys: Vec<SortValue> = Vec::new();
        let mut i: usize = 0;
        assert(keys.deep_view() == pk.take(0));
        while i < self.rows.len()
            invariant
                i <= self.rows@.len(),
                m == self@,
                pk == project_keys(m.rows),
                tokens.deep_view() == list::lower_words(text::words(m.query)),
                keep@ == m.keep().take(i as int),
                keys.deep_view() == pk.take(i as int),
            decreases self.rows@.len() - i,
        {
            assert(m.rows[i as int] == self.rows@[i as int]@);
            keep.push(match_visible(&self.rows[i], &tokens));
            let ghost before = keys.deep_view();
            let k = SortValue::Pair(self.rows[i].name.clone(), self.rows[i].file_name.clone());
            keys.push(k);
            assert(keys.deep_view() == before.push(k@));
            assert(pk.take(i + 1) == pk.take(i as int).push(pk[i as int]));
            assert(m.keep().take(i + 1) == m.keep().take(i as int).push(m.keep()[i as int]));
            i += 1;
        }
        assert(m.keep().take(m.rows.len() as int) == m.keep());
        assert(pk.take(m.rows.len() as int) == pk);
        arrange(&keep, &keys, true)
    }

    fn visible_count(&self) -> (r: usize)
        ensures
            r == self@.visible().len(),
    {
        let v = self.visible_indices();
        assert(positions(v@).len() == v@.len());
        v.len()
    }

    /// Takes the projects of the engine's listing and those found in the current directory.
    pub fn scan_projects(&mut self, listed: Vec<ComposeProject>, found: Vec<ComposeProject>, now: u64)
        ensures
            final(self)@ == old(self)@.scanned(found.deep_view(), listed.deep_view(), now),
    {
        self.rows = merge_projects(found, listed);
        self.last_scan = now;
        let n = self.visible_count();
        self.selected = list::clamp_cursor(self.selected, n);
    }

    /// Takes the projects that a key asked for.
    pub fn on_scanned(&mut self, listed: Vec<ComposeProject>, found: Vec<ComposeProject>, now: u64)
        ensures
            final(self)@ == old(self)@.scanned(found.deep_view(), listed.deep_view(), now).say(
                "✅ compose projects rescanned"@,
                old(self)@.theme.ok,
            ),
    {
        self.scan_projects(listed, found, now);
        let ok = self.theme.ok;
        self.say("✅ compose projects rescanned", ok);
    }

    /// A copy of the project under the cursor.
    pub fn current_project(&self) -> (r: Option<ComposeProject>)
        ensures
            r.deep_view() == self@.current(),
    {
        match self.selected {
            Some(i) => {
                let vis = self.visible_indices();
                assert(positions(vis@).len() == vis@.len());
                if i < vis.len() {
                    assert(self@.visible()[i as int] == vis@[i as int]);
                    let k: usize = vis[i];
                    assert(self@.rows[k as int] == self.rows@[k as int]@);
                    Some(copy_project(&self.rows[k]))
                } else {
                    None
                }
            },
            None => None,
        }
    }

    fn say(&mut self, msg: &str, color: Color)
        ensures
            final(self)@ == old(self)@.say(msg@, color),
    {
        self.last_note = Some((msg.to_owned(), color));
    }

    fn no_project(&mut self)
        ensures
            final(self)@ == old(self)@.no_project(),
    {
        let warn = self.theme.warn;
        self.say("⚠ no project selected", warn);
    }

    fn run_key(&mut self, c: ComposeCommand) -> (r: ComposeAction)
        ensures
            (final(self)@, r@) == old(self)@.run_key(c),
    {
        match self.current_project() {
            Some(p) => ComposeAction::Run(c, p),
            None => {
                self.no_project();
                ComposeAction::Nothing
            },
        }
    }

    fn move_down(&mut self)
        ensures
            final(self)@ == (ComposeModel {
                selected: list::moved_cursor(
                    old(self)@.selected,
                    old(self)@.visible().len() as int,
                    1,
                ),
                ..old(self)@
            }),
    {
        let n = self.visible_count();
        self.selected = list::cursor_down(self.selected, n);
    }

    fn move_up(&mut self)
        ensures
            final(self)@ == (ComposeModel {
                selected: list::moved_cursor(
                    old(self)@.selected,
                    old(self)@.visible().len() as int,
                    -1,
                ),
                ..old(self)@
            }),
    {
        let n = self.visible_count();
        self.selected = list::cursor_up(self.selected, n);
    }

    fn list_key(&mut self, key: KeyEvent) -> (r: ComposeAction)
        ensures
            (final(self)@, r@) == old(self)@.list_key(key),
    {
        match key.code {
            KeyCode::Down => self.move_down(),
            KeyCode::Up => self.move_up(),
            KeyCode::F(n) => {
                if n == 5 {
                    return ComposeAction::Rescan;
                }
            },
            KeyCode::Char(c) => {
                if c == 'j' {
                    self.move_down();
                } else if c == 'k' {
                    self.move_up();
                } else if c == 'r' {
                    return ComposeAction::Rescan;
                } else if c == '/' {
                    self.searching = true;
                    self.query = String::new();
                } else if c == 'e' {
                    match self.current_project() {
                        Some(p) => {
                            return ComposeAction::Edit(p);
                        },
                        None => self.no_project(),
                    }
                } else if c == 'u' {
                    return self.run_key(ComposeCommand::Up);
                } else if c == 'd' {
                    return self.run_key(ComposeCommand::Down);
                } else if c == 's' {
                    return self.run_key(ComposeCommand::Ps);
                } else if c == 'l' {
                    return self.run_key(ComposeCommand::Logs);
                }
            },
            _ => {},
        }
        ComposeAction::Nothing
    }

    /// A key is pressed. What needs a process or the disk comes back as a request.
    pub fn on_key(&mut self, key: KeyEvent) -> (r: ComposeAction)
        ensures
            (final(self)@, r@) == old(self)@.on_key(key),
    {
        if self.popup.is_some() {
            if list::is_close(key) {
                self.popup = None;
            }
            return ComposeAction::Nothing;
        }
        if self.searching {
            self.searching = list::search_key(&mut self.query, key);
            let n = self.visible_count();
            self.selected = list::clamp_cursor(self.selected, n);
            return ComposeAction::Nothing;
        }
        self.list_key(key)
    }

    /// Takes what a command came to.
    pub fn on_ran(&mut self, c: ComposeCommand, name: &str, r: Result<CommandOutput, String>)
        ensures
            final(self)@ == old(self)@.ran(c, name@, command_result(r)),
    {
        let ok = self.theme.ok;
        let err = self.theme.err;
        match compose_cmd(r) {
            Ok(out) => {
                let filled = !text::trim(out.as_str()).as_str().is_empty();
                let title = title_text(c, name);
                match c {
                    ComposeCommand::Up => {
                        if filled {
                            self.popup = Some(Popup { title, content: out });
                        }
                        self.say(text::cat("🚀 compose up: ", name).as_str(), ok);
                    },
                    ComposeCommand::Down => {
                        if filled {
                            self.popup = Some(Popup { title, content: out });
                        }
                        self.say(text::cat("🛑 compose down: ", name).as_str(), ok);
                    },
                    _ => {
                        self.popup = Some(Popup { title, content: out });
                    },
                }
            },
            Err(e) => {
                let msg = text::cat3("❌ ", command_text(c).as_str(), e.as_str());
                self.say(msg.as_str(), err);
            },
        }
    }

    /// Takes the outcome of editing a file: its path, or why no editor could be started.
    pub fn on_edited(&mut self, r: Result<String, String>)
        ensures
            final(self)@ == (match r {
                Ok(path) => old(self)@.say("✏️ edited: "@ + path@, old(self)@.theme.ok),
                Err(e) => old(self)@.say(
                    "❌ failed to launch editor: "@ + e@,
                    old(self)@.theme.err,
                ),
            }),
    {
        match r {
            Ok(path) => {
                let ok = self.theme.ok;
                self.say(text::cat("✏️ edited: ", path.as_str()).as_str(), ok);
            },
            Err(e) => {
                let err = self.theme.err;
                self.say(text::cat("❌ failed to launch editor: ", e.as_str()).as_str(), err);
            },
        }
    }
}

/// The editor to use, by the environment's choice.
pub fn editor(chosen: Option<String>) -> (r: String)
    ensures
        r@ == (match chosen {
            Some(e) => e@,
            None => "nano"@,
        }),
{
    match chosen {
        Some(e) => e,
        None => "nano".to_owned(),
    }
}

} // verus!
