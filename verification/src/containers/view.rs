//! The list of containers.

use super::actions::{outcome, ActionAnim, ActionKind, AnimModel, BarUpdate};
use super::inspect::{format_inspect, InspectInfo};
use super::shell::{script_outcome, ShellEvent, ShellEventView, ShellJob, ShellJobView, ShellPopup, ShellView};
use super::summary::{match_visible, parse_query, query_labels, query_tokens, sort_value, ContainerModel, ContainerState, ContainerSummary, SortKey};
use crate::key::{KeyCode, KeyEvent};
use crate::list;
use crate::order::{arrange, arranged, positions, SortValue, SortValueView};
use crate::output::CommandOutput;
use crate::text;
use crate::theme::{note_view, Color, Note, Theme};
use std::collections::VecDeque;
use vstd::hash_set::StringHashSet;
use vstd::prelude::*;

verus! {

/// A container that something is done to.
pub struct Target {
    pub id: String,
    pub name: String,
}

#[verifier::ext_equal]
pub struct TargetView {
    pub id: Seq<char>,
    pub name: Seq<char>,
}

impl View for Target {
    type V = TargetView;

    open spec fn view(&self) -> TargetView {
        TargetView { id: self.id@, name: self.name@ }
    }
}

impl DeepView for Target {
    type V = TargetView;

    open spec fn deep_view(&self) -> TargetView {
        self@
    }
}

/// A container that is to be paused, or resumed.
pub struct PauseJob {
    pub target: Target,
    pub pause: bool,
}

#[verifier::ext_equal]
pub struct PauseJobView {
    pub target: TargetView,
    pub pause: bool,
}

impl View for PauseJob {
    type V = PauseJobView;

    open spec fn view(&self) -> PauseJobView {
        PauseJobView { target: self.target@, pause: self.pause }
    }
}

impl DeepView for PauseJob {
    type V = PauseJobView;

    open spec fn deep_view(&self) -> PauseJobView {
        self@
    }
}

/// A start or a stop that waits for its turn.
pub struct QueuedAction {
    pub kind: ActionKind,
    pub target: Target,
}

#[verifier::ext_equal]
pub struct QueuedView {
    pub kind: ActionKind,
    pub target: TargetView,
}

impl View for QueuedAction {
    type V = QueuedView;

    open spec fn view(&self) -> QueuedView {
        QueuedView { kind: self.kind, target: self.target@ }
    }
}

pub open spec fn queue_view(q: Seq<QueuedAction>) -> Seq<QueuedView> {
    Seq::new(q.len(), |i: int| q[i]@)
}

pub enum Popup {
    Inspect(String),
    ConfirmDelete { items: Vec<Target> },
}

#[verifier::ext_equal]
pub enum PopupView {
    Inspect(Seq<char>),
    ConfirmDelete { items: Seq<TargetView> },
}

impl View for Popup {
    type V = PopupView;

    open spec fn view(&self) -> PopupView {
        match self {
            Popup::Inspect(t) => PopupView::Inspect(t@),
            Popup::ConfirmDelete { items } => PopupView::ConfirmDelete { items: items.deep_view() },
        }
    }
}

/// What a key asks of the owner of the list.
pub enum ContainersAction {
    Nothing,
    /// List the containers again. With `announce` the user is told; with `strict` a failure is
    /// an error.
    Refresh { announce: bool, strict: bool },
    Pause(Target),
    Unpause(Target),
    OpenShell(Target),
    PauseMany(Vec<PauseJob>),
    Inspect(Target),
    Save(String),
    Remove(Vec<Target>),
    /// Run a script in the container of the shell.
    Shell { job: ShellJob, script: String },
}

#[verifier::ext_equal]
pub enum ContainersActionView {
    Nothing,
    Refresh { announce: bool, strict: bool },
    Pause(TargetView),
    Unpause(TargetView),
    OpenShell(TargetView),
    PauseMany(Seq<PauseJobView>),
    Inspect(TargetView),
    Save(Seq<char>),
    Remove(Seq<TargetView>),
    Shell { job: ShellJobView, script: Seq<char> },
}

impl View for ContainersAction {
    type V = ContainersActionView;

    open spec fn view(&self) -> ContainersActionView {
        match self {
            ContainersAction::Nothing => ContainersActionView::Nothing,
            ContainersAction::Refresh { announce, strict } => ContainersActionView::Refresh {
                announce: *announce,
                strict: *strict,
            },
            ContainersAction::Pause(t) => ContainersActionView::Pause(t@),
            ContainersAction::Unpause(t) => ContainersActionView::Unpause(t@),
            ContainersAction::OpenShell(t) => ContainersActionView::OpenShell(t@),
            ContainersAction::PauseMany(l) => ContainersActionView::PauseMany(l.deep_view()),
            ContainersAction::Inspect(t) => ContainersActionView::Inspect(t@),
            ContainersAction::Save(s) => ContainersActionView::Save(s@),
            ContainersAction::Remove(l) => ContainersActionView::Remove(l.deep_view()),
            ContainersAction::Shell { job, script } => ContainersActionView::Shell {
                job: job@,
                script: script@,
            },
        }
    }
}

pub struct ContainersView {
    pub theme: Theme,
    pub all: bool,
    pub rows: Vec<ContainerSummary>,
    /// The row of the cursor, among those that are shown.
    pub selected: Option<usize>,
    /// When the list was read last, in milliseconds.
    pub last_refresh: u64,
    pub tick: u64,
    pub last_note: Note,
    pub anim: Option<ActionAnim>,
    pub searching: bool,
    pub query: String,
    pub sort_key: SortKey,
    pub sort_asc: bool,
    pub selected_ids: StringHashSet,
    pub queue: VecDeque<QueuedAction>,
    pub popup: Option<Popup>,
    pub shell: Option<ShellPopup>,
}

#[verifier::ext_equal]
pub struct ContainersModel {
    pub theme: Theme,
    pub all: bool,
    pub rows: Seq<ContainerModel>,
    pub selected: Option<usize>,
    pub last_refresh: u64,
    pub tick: u64,
    pub note: Option<(Seq<char>, Color)>,
    pub anim: Option<AnimModel>,
    pub searching: bool,
    pub query: Seq<char>,
    pub sort_key: SortKey,
    pub sort_asc: bool,
    pub selected_ids: Set<Seq<char>>,
    pub queue: Seq<QueuedView>,
    pub popup: Option<PopupView>,
    pub shell: Option<ShellView>,
}

impl View for ContainersView {
    type V = ContainersModel;

    open spec fn view(&self) -> ContainersModel {
        ContainersModel {
            theme: self.theme,
            all: self.all,
            rows: self.rows.deep_view(),
            selected: self.selected,
            last_refresh: self.last_refresh,
            tick: self.tick,
            note: note_view(self.last_note),
            anim: match self.anim {
                Some(a) => Some(a@),
                None => None,
            },
            searching: self.searching,
            query: self.query@,
            sort_key: self.sort_key,
            sort_asc: self.sort_asc,
            selected_ids: self.selected_ids@,
            queue: queue_view(self.queue@),
            popup: match self.popup {
                Some(p) => Some(p@),
                None => None,
            },
            shell: match self.shell {
                Some(s) => Some(s@),
                None => None,
            },
        }
    }
}

/// A row that something can be done to.
#[verifier::ext_equal]
pub struct PickedView {
    pub target: TargetView,
    pub state: Option<ContainerState>,
}

pub struct Picked {
    pub target: Target,
    pub state: Option<ContainerState>,
}

impl View for Picked {
    type V = PickedView;

    open spec fn view(&self) -> PickedView {
        PickedView { target: self.target@, state: self.state }
    }
}

impl DeepView for Picked {
    type V = PickedView;

    open spec fn deep_view(&self) -> PickedView {
        self@
    }
}

/// A row as something to act on: it needs an id, which stands in for a missing name.
pub open spec fn picked(c: ContainerModel) -> Option<PickedView> {
    match c.id {
        Some(id) => Some(
            PickedView {
                target: TargetView {
                    id,
                    name: match c.first_name() {
                        Some(n) => n,
                        None => id,
                    },
                },
                state: c.state,
            },
        ),
        None => None,
    }
}

pub open spec fn next_sort(k: SortKey) -> SortKey {
    match k {
        SortKey::Name => SortKey::Image,
        SortKey::Image => SortKey::State,
        SortKey::State => SortKey::Created,
        SortKey::Created => SortKey::Ports,
        SortKey::Ports => SortKey::Name,
    }
}

/// Each key comes round again.
pub proof fn sort_keys_cycle(k: SortKey)
    ensures
        next_sort(next_sort(next_sort(next_sort(next_sort(k))))) == k,
        next_sort(k) != k,
{
}

impl ContainersModel {
    pub open spec fn fresh(theme: Theme, now: u64) -> ContainersModel {
        ContainersModel {
            theme,
            all: true,
            rows: Seq::empty(),
            selected: None,
            last_refresh: now,
            tick: 0,
            note: None,
            anim: None,
            searching: false,
            query: Seq::empty(),
            sort_key: SortKey::Name,
            sort_asc: true,
            selected_ids: Set::empty(),
            queue: Seq::empty(),
            popup: None,
            shell: None,
        }
    }

    /// Which rows meet the query.
    pub open spec fn keep(self) -> Seq<bool> {
        let words = text::words(self.query);
        Seq::new(
            self.rows.len(),
            |i: int| self.rows[i].matches(query_tokens(words), query_labels(words)),
        )
    }

    /// What the rows are sorted by.
    pub open spec fn keys(self) -> Seq<SortValueView> {
        Seq::new(self.rows.len(), |i: int| self.rows[i].sort_value(self.sort_key))
    }

    /// The rows that are shown.
    pub open spec fn visible(self) -> Seq<int> {
        arranged(self.keep(), self.keys(), self.sort_asc)
    }

    /// The row under the cursor.
    pub open spec fn current(self) -> Option<PickedView> {
        match self.selected {
            Some(i) => if i < self.visible().len() {
                picked(self.rows[self.visible()[i as int]])
            } else {
                None
            },
            None => None,
        }
    }

    /// The marked ones of some rows.
    pub open spec fn chosen_of(self, l: Seq<int>) -> Seq<PickedView>
        decreases l.len(),
    {
        if l.len() == 0 {
            Seq::empty()
        } else {
            let before = self.chosen_of(l.drop_last());
            match picked(self.rows[l.last()]) {
                Some(p) => if self.selected_ids.contains(p.target.id) {
                    before.push(p)
                } else {
                    before
                },
                None => before,
            }
        }
    }

    /// The marked ones of the rows that are shown.
    pub open spec fn chosen(self) -> Seq<PickedView> {
        self.chosen_of(self.visible())
    }

    pub open spec fn say(self, msg: Seq<char>, color: Color) -> ContainersModel {
        ContainersModel { note: Some((msg, color)), ..self }
    }

    pub open spec fn refreshed(self, rows: Seq<ContainerModel>, now: u64) -> ContainersModel {
        let m = ContainersModel { rows, last_refresh: now, ..self };
        ContainersModel {
            selected: list::held_cursor(m.selected, m.visible().len() as int),
            ..m
        }
    }

    pub open spec fn queued(self, kind: ActionKind, target: TargetView) -> ContainersModel {
        ContainersModel { queue: self.queue.push(QueuedView { kind, target }), ..self }
    }

    pub open spec fn queued_all(self, l: Seq<PickedView>) -> ContainersModel {
        ContainersModel {
            queue: self.queue + Seq::new(
                l.len(),
                |i: int| QueuedView { kind: opposite(l[i].state), target: l[i].target },
            ),
            ..self
        }
    }

    pub open spec fn no_container(self) -> ContainersModel {
        self.say("⚠ no container selected"@, self.theme.warn)
    }

    pub open spec fn no_selection(self) -> ContainersModel {
        self.say("⚠ no selection"@, self.theme.warn)
    }

    /// The list as a table of texts.
    pub open spec fn saved_text(self) -> Seq<char> {
        text::joined(
            seq!["STATE\tNAME\tIMAGE\tPORTS\tID\n"@] + self.saved_lines(self.visible()),
            Seq::empty(),
        )
    }

    pub open spec fn saved_lines(self, l: Seq<int>) -> Seq<Seq<char>> {
        Seq::new(l.len(), |i: int| saved_line(self.rows[l[i]]))
    }

    /// A key goes to the shell.
    pub open spec fn shell_key(self, s: ShellView, key: KeyEvent) -> (
        ContainersModel,
        ContainersActionView,
    ) {
        let (t, ev) = s.on_key(key);
        match ev {
            ShellEventView::Nothing => (
                ContainersModel { shell: Some(t), ..self },
                ContainersActionView::Nothing,
            ),
            ShellEventView::Close => (
                ContainersModel { shell: None, ..self }.say("🐚 shell closed"@, self.theme.ok),
                ContainersActionView::Nothing,
            ),
            ShellEventView::Exec { job, script } => (
                ContainersModel { shell: Some(t), ..self },
                ContainersActionView::Shell { job, script },
            ),
        }
    }

    /// A key goes to a popup.
    pub open spec fn popup_key(self, p: PopupView, key: KeyEvent) -> (
        ContainersModel,
        ContainersActionView,
    ) {
        let closed = ContainersModel { popup: None, ..self };
        let none = ContainersActionView::Nothing;
        match p {
            PopupView::Inspect(_) => if list::closes(key) {
                (closed, none)
            } else {
                (self, none)
            },
            PopupView::ConfirmDelete { items } => if list::refuses(key) {
                (closed, none)
            } else if list::agrees(key) {
                (
                    closed,
                    if items.len() == 0 {
                        none
                    } else {
                        ContainersActionView::Remove(items)
                    },
                )
            } else {
                (self, none)
            },
        }
    }

    /// A key goes to the search line.
    pub open spec fn search_key(self, key: KeyEvent) -> ContainersModel {
        let (open, query) = list::searched(self.query, key);
        let m = ContainersModel { searching: open, query, ..self };
        ContainersModel {
            selected: list::clamped_cursor(m.selected, m.visible().len() as int),
            ..m
        }
    }

    /// The key that pauses or resumes the current container.
    pub open spec fn pause_key(self) -> (ContainersModel, ContainersActionView) {
        match self.current() {
            Some(p) => if p.state == Some(ContainerState::Running) {
                (self, ContainersActionView::Pause(p.target))
            } else if p.state == Some(ContainerState::Paused) {
                (self, ContainersActionView::Unpause(p.target))
            } else {
                (
                    self.say(
                        "⚠ pause/unpause only for running/paused containers"@,
                        self.theme.warn,
                    ),
                    ContainersActionView::Nothing,
                )
            },
            None => (self, ContainersActionView::Nothing),
        }
    }

    /// The key that opens a shell in the current container.
    pub open spec fn shell_open_key(self) -> (ContainersModel, ContainersActionView) {
        match self.current() {
            Some(p) => if p.state == Some(ContainerState::Running) {
                (self, ContainersActionView::OpenShell(p.target))
            } else {
                (
                    self.say("⚠ shell only available on a running container"@, self.theme.warn),
                    ContainersActionView::Nothing,
                )
            },
            None => (self.no_container(), ContainersActionView::Nothing),
        }
    }

    /// A key goes to the list.
    pub open spec fn list_key(self, key: KeyEvent) -> (ContainersModel, ContainersActionView) {
        let none = ContainersActionView::Nothing;
        let n = self.visible().len() as int;
        let down = ContainersModel { selected: list::moved_cursor(self.selected, n, 1), ..self };
        let up = ContainersModel { selected: list::moved_cursor(self.selected, n, -1), ..self };
        let again = ContainersActionView::Refresh { announce: true, strict: true };
        let delete_current = match self.current() {
            Some(p) => ContainersModel {
                popup: Some(PopupView::ConfirmDelete { items: seq![p.target] }),
                ..self
            },
            None => self.no_container(),
        };
        let switch_current = match self.current() {
            Some(p) => self.queued(opposite(p.state), p.target),
            None => self.no_container(),
        };
        match key.code {
            KeyCode::Down => (down, none),
            KeyCode::Up => (up, none),
            KeyCode::F(5) => (self, again),
            KeyCode::Enter => (switch_current, none),
            KeyCode::Delete => (delete_current, none),
            KeyCode::Char(c) => if c == 'j' {
                (down, none)
            } else if c == 'k' {
                (up, none)
            } else if c == 'a' {
                (
                    ContainersModel { all: !self.all, ..self },
                    ContainersActionView::Refresh { announce: false, strict: true },
                )
            } else if c == 'r' {
                (self, again)
            } else if c == 'p' {
                self.pause_key()
            } else if c == 'b' {
                self.shell_open_key()
            } else if c == 'P' {
                if self.chosen().len() == 0 {
                    (self.no_selection(), none)
                } else {
                    (self, ContainersActionView::PauseMany(pause_jobs(self.chosen())))
                }
            } else if c == '/' {
                (ContainersModel { searching: true, query: Seq::empty(), ..self }, none)
            } else if c == 'o' {
                (ContainersModel { sort_key: next_sort(self.sort_key), ..self }, none)
            } else if c == 'O' {
                (ContainersModel { sort_asc: !self.sort_asc, ..self }, none)
            } else if c == 'x' {
                match self.current() {
                    Some(p) => (
                        ContainersModel {
                            selected_ids: list::toggled(self.selected_ids, p.target.id),
                            ..self
                        },
                        none,
                    ),
                    None => (self, none),
                }
            } else if c == 'C' {
                (ContainersModel { selected_ids: Set::empty(), ..self }, none)
            } else if c == 'A' {
                if self.chosen().len() == 0 {
                    (self.no_selection(), none)
                } else {
                    (self.queued_all(self.chosen()).say("🧰 batch queued"@, self.theme.ok), none)
                }
            } else if c == ' ' {
                (switch_current, none)
            } else if c == 'R' {
                match self.current() {
                    Some(p) => (
                        self.queued(ActionKind::Stopping, p.target).queued(
                            ActionKind::Starting,
                            p.target,
                        ),
                        none,
                    ),
                    None => (self.no_container(), none),
                }
            } else if c == 'i' {
                match self.current() {
                    Some(p) => (self, ContainersActionView::Inspect(p.target)),
                    None => (self, none),
                }
            } else if c == 'S' {
                (self, ContainersActionView::Save(self.saved_text()))
            } else if c == 'd' {
                (delete_current, none)
            } else if c == 'D' {
                if self.chosen().len() == 0 {
                    (self.no_selection(), none)
                } else {
                    (
                        ContainersModel {
                            popup: Some(
                                PopupView::ConfirmDelete { items: targets(self.chosen()) },
                            ),
                            ..self
                        },
                        none,
                    )
                }
            } else {
                (self, none)
            },
            _ => (self, none),
        }
    }

    /// A key is pressed: it goes to the shell, to a popup, to the search line or to the list,
    /// whichever is open first.
    pub open spec fn on_key(self, key: KeyEvent) -> (ContainersModel, ContainersActionView) {
        match self.shell {
            Some(s) => self.shell_key(s, key),
            None => match self.popup {
                Some(p) => self.popup_key(p, key),
                None => if self.searching {
                    (self.search_key(key), ContainersActionView::Nothing)
                } else {
                    self.list_key(key)
                },
            },
        }
    }

    pub open spec fn has_modal(self) -> bool {
        self.shell is Some || self.popup is Some
    }

    pub open spec fn is_modal_open(self) -> bool {
        self.has_modal() || self.searching
    }
}

/// What a container is to do next: to stop if it runs, else to start.
pub open spec fn opposite(s: Option<ContainerState>) -> ActionKind {
    if s == Some(ContainerState::Running) {
        ActionKind::Stopping
    } else {
        ActionKind::Starting
    }
}

/// The running ones are paused, the paused ones resumed; the others stay as they are.
pub open spec fn pause_jobs(l: Seq<PickedView>) -> Seq<PauseJobView>
    decreases l.len(),
{
    if l.len() == 0 {
        Seq::empty()
    } else {
        let before = pause_jobs(l.drop_last());
        let p = l.last();
        if p.state == Some(ContainerState::Running) {
            before.push(PauseJobView { target: p.target, pause: true })
        } else if p.state == Some(ContainerState::Paused) {
            before.push(PauseJobView { target: p.target, pause: false })
        } else {
            before
        }
    }
}

pub open spec fn targets(l: Seq<PickedView>) -> Seq<TargetView> {
    Seq::new(l.len(), |i: int| l[i].target)
}

/// A container as a line of the saved table.
pub open spec fn saved_line(c: ContainerModel) -> Seq<char> {
    c.state_text("unknown"@) + "\t"@ + c.name() + "\t"@ + c.image_text() + "\t"@ + c.ports_text(
        ", "@,
    ) + "\t"@ + (match c.id {
        Some(id) => id,
        None => Seq::empty(),
    }) + "\n"@
}

fn pick(c: &ContainerSummary) -> (r: Option<Picked>)
    ensures
        r.deep_view() == picked(c@),
{
    match &c.id {
        Some(id) => {
            let name = match c.first_name() {
                Some(n) => n,
                None => id.clone(),
            };
            Some(Picked { target: Target { id: id.clone(), name }, state: c.state })
        },
        None => None,
    }
}

fn next_action(s: Option<ContainerState>) -> (r: ActionKind)
    ensures
        r == opposite(s),
{
    match s {
        Some(ContainerState::Running) => ActionKind::Stopping,
        _ => ActionKind::Starting,
    }
}

fn copy_target(t: &Target) -> (r: Target)
    ensures
        r@ == t@,
{
    Target { id: t.id.clone(), name: t.name.clone() }
}

fn jobs_of(l: &Vec<Picked>) -> (r: Vec<PauseJob>)
    ensures
        r.deep_view() == pause_jobs(l.deep_view()),
{
    let ghost lv = l.deep_view();
    let mut out: Vec<PauseJob> = Vec::new();
    let mut i: usize = 0;
    assert(out.deep_view() == pause_jobs(lv.take(0)));
    while i < l.len()
        invariant
            i <= l@.len(),
            lv == l.deep_view(),
            out.deep_view() == pause_jobs(lv.take(i as int)),
        decreases l@.len() - i,
    {
        assert(lv.take(i + 1).drop_last() == lv.take(i as int));
        assert(lv[i as int] == l@[i as int]@);
        let ghost before = out.deep_view();
        match l[i].state {
            Some(ContainerState::Running) => {
                let j = PauseJob { target: copy_target(&l[i].target), pause: true };
                out.push(j);
                assert(out.deep_view() == before.push(j@));
            },
            Some(ContainerState::Paused) => {
                let j = PauseJob { target: copy_target(&l[i].target), pause: false };
                out.push(j);
                assert(out.deep_view() == before.push(j@));
            },
            _ => {},
        }
        i += 1;
    }
    assert(lv.take(lv.len() as int) == lv);
    out
}

fn targets_of(l: &Vec<Picked>) -> (r: Vec<Target>)
    ensures
        r.deep_view() == targets(l.deep_view()),
{
    let ghost lv = l.deep_view();
    let mut out: Vec<Target> = Vec::new();
    let mut i: usize = 0;
    while i < l.len()
        invariant
            i <= l@.len(),
            lv == l.deep_view(),
            out.deep_view() == targets(lv).take(i as int),
        decreases l@.len() - i,
    {
        assert(lv[i as int] == l@[i as int]@);
        let ghost before = out.deep_view();
        let t = copy_target(&l[i].target);
        out.push(t);
        assert(out.deep_view() == before.push(t@));
        assert(targets(lv).take(i + 1) == targets(lv).take(i as int).push(targets(lv)[i as int]));
        i += 1;
    }
    assert(targets(lv).take(lv.len() as int) == targets(lv));
    out
}

fn saved_row(c: &ContainerSummary) -> (r: String)
    ensures
        r@ == saved_line(c@),
{
    let mut s = text::cat3(c.state_text("unknown").as_str(), "\t", c.name().as_str());
    s.append("\t");
    s.append(c.image_text().as_str());
    s.append("\t");
    s.append(c.ports_text(", ").as_str());
    s.append("\t");
    match &c.id {
        Some(id) => s.append(id.as_str()),
        None => {
            let none: String = String::new();
            s.append(none.as_str());
        },
    }
    s.append("\n");
    s
}

impl ContainersView {
    pub fn new(theme: Theme, now: u64) -> (r: ContainersView)
        ensures
            r@ == ContainersModel::fresh(theme, now),
    {
        let r = ContainersView {
            theme,
            all: true,
            rows: Vec::new(),
            selected: None,
            last_refresh: now,
            tick: 0,
            last_note: None,
            anim: None,
            searching: false,
            query: String::new(),
            sort_key: SortKey::Name,
            sort_asc: true,
            selected_ids: StringHashSet::new(),
            queue: VecDeque::new(),
            popup: None,
            shell: None,
        };
        assert(queue_view(r.queue@) == Seq::<QueuedView>::empty());
        r
    }

    /// The rows that are shown: those that meet the query, sorted.
    pub fn visible_indices(&self) -> (r: Vec<usize>)
        ensures
            positions(r@) == self@.visible(),
            forall|i: int| 0 <= i < r@.len() ==> #[trigger] r@[i] < self.rows@.len(),
    {
        let (tokens, labels) = parse_query(self.query.as_str());
        let ghost m = self@;
        let mut keep: Vec<bool> = Vec::new();
        let mut keys: Vec<SortValue> = Vec::new();
        let mut i: usize = 0;
        assert(keys.deep_view() == m.keys().take(0));
        while i < self.rows.len()
            invariant
                i <= self.rows@.len(),
                m == self@,
                tokens.deep_view() == query_tokens(text::words(m.query)),
                labels.deep_view() == query_labels(text::words(m.query)),
                keep@ == m.keep().take(i as int),
                keys.deep_view() == m.keys().take(i as int),
            decreases self.rows@.len() - i,
        {
            assert(m.rows[i as int] == self.rows@[i as int]@);
            keep.push(match_visible(&self.rows[i], &tokens, &labels));
            let ghost before = keys.deep_view();
            let k = sort_value(&self.rows[i], self.sort_key);
            keys.push(k);
            assert(keys.deep_view() == before.push(k@));
            assert(m.keys().take(i + 1) == m.keys().take(i as int).push(m.keys()[i as int]));
            assert(m.keep().take(i + 1) == m.keep().take(i as int).push(m.keep()[i as int]));
            i += 1;
        }
        assert(m.keep().take(m.rows.len() as int) == m.keep());
        assert(m.keys().take(m.rows.len() as int) == m.keys());
        arrange(&keep, &keys, self.sort_asc)
    }

    /// How many rows are shown.
    fn visible_count(&self) -> (r: usize)
        ensures
            r == self@.visible().len(),
    {
        let v = self.visible_indices();
        assert(positions(v@).len() == v@.len());
        v.len()
    }

    /// Takes a fresh list of containers.
    pub fn refresh(&mut self, rows: Vec<ContainerSummary>, now: u64)
        ensures
            final(self)@ == old(self)@.refreshed(rows.deep_view(), now),
    {
        self.rows = rows;
        self.last_refresh = now;
        let n = self.visible_count();
        self.selected = list::hold_cursor(self.selected, n);
    }

    pub fn is_modal_open(&self) -> (r: bool)
        ensures
            r == self@.is_modal_open(),
    {
        self.shell.is_some() || self.popup.is_some() || self.searching
    }

    pub fn has_modal(&self) -> (r: bool)
        ensures
            r == self@.has_modal(),
    {
        self.shell.is_some() || self.popup.is_some()
    }

    /// The row under the cursor.
    pub fn current(&self) -> (r: Option<Picked>)
        ensures
            r.deep_view() == self@.current(),
    {
        match self.selected {
            Some(i) => {
                let vis = self.visible_indices();
                assert(positions(vis@).len() == vis@.len());
                if i < vis.len() {
                    assert(self@.visible()[i as int] == vis@[i as int]);
                    let k: usize = vis[i];
                    assert(self@.rows[k as int] == self.rows@[k as int]@);
                    pick(&self.rows[k])
                } else {
                    None
                }
            },
            None => None,
        }
    }

    /// The id of the container under the cursor.
    pub fn selected_id(&self) -> (r: Option<String>)
        ensures
            r.deep_view() == (match self@.current() {
                Some(p) => Some(p.target.id),
                None => None,
            }),
    {
        match self.current() {
            Some(p) => Some(p.target.id),
            None => None,
        }
    }

    /// The marked ones of the rows that are shown.
    pub fn chosen(&self) -> (r: Vec<Picked>)
        ensures
            r.deep_view() == self@.chosen(),
    {
        let vis = self.visible_indices();
        let ghost m = self@;
        let ghost vv = m.visible();
        assert(vv.len() == vis@.len());
        let mut out: Vec<Picked> = Vec::new();
        let mut i: usize = 0;
        assert(out.deep_view() == m.chosen_of(vv.take(0)));
        while i < vis.len()
            invariant
                i <= vis@.len(),
                m == self@,
                vv == positions(vis@),
                forall|i: int| 0 <= i < vis@.len() ==> #[trigger] vis@[i] < self.rows@.len(),
                out.deep_view() == m.chosen_of(vv.take(i as int)),
            decreases vis@.len() - i,
        {
            let k: usize = vis[i];
            assert(vv[i as int] == k);
            assert(vv.take(i + 1).drop_last() == vv.take(i as int));
            assert(m.rows[k as int] == self.rows@[k as int]@);
            let ghost before = out.deep_view();
            match pick(&self.rows[k]) {
                Some(p) => {
                    if self.selected_ids.contains(p.target.id.as_str()) {
                        out.push(p);
                        assert(out.deep_view() == before.push(p@));
                    }
                },
                None => {},
            }
            i += 1;
        }
        assert(vv.take(vv.len() as int) == vv);
        out
    }

    fn say(&mut self, msg: &str, color: Color)
        ensures
            final(self)@ == old(self)@.say(msg@, color),
    {
        self.last_note = Some((msg.to_owned(), color));
    }

    fn enqueue(&mut self, kind: ActionKind, target: Target)
        ensures
            final(self)@ == old(self)@.queued(kind, target@),
    {
        let ghost before = queue_view(self.queue@);
        let q = QueuedAction { kind, target };
        self.queue.push_back(q);
        assert(queue_view(self.queue@) == before.push(q@));
    }

    fn enqueue_all(&mut self, l: &Vec<Picked>)
        ensures
            final(self)@ == old(self)@.queued_all(l.deep_view()),
    {
        let ghost m = self@;
        let ghost lv = l.deep_view();
        let ghost added = Seq::new(
            lv.len(),
            |i: int| QueuedView { kind: opposite(lv[i].state), target: lv[i].target },
        );
        let mut i: usize = 0;
        assert(m.queue + added.take(0) == m.queue);
        while i < l.len()
            invariant
                i <= l@.len(),
                lv == l.deep_view(),
                added == Seq::new(
                    lv.len(),
                    |i: int| QueuedView { kind: opposite(lv[i].state), target: lv[i].target },
                ),
                self@ == (ContainersModel { queue: m.queue + added.take(i as int), ..m }),
            decreases l@.len() - i,
        {
            assert(lv[i as int] == l@[i as int]@);
            self.enqueue(next_action(l[i].state), copy_target(&l[i].target));
            assert(added.take(i + 1) == added.take(i as int).push(added[i as int]));
            assert(self@.queue == m.queue + added.take(i + 1));
            i += 1;
        }
        assert(added.take(added.len() as int) == added);
    }

    /// The list as a table of texts.
    pub fn visible_table(&self) -> (r: String)
        ensures
            r@ == self@.saved_text(),
    {
        let vis = self.visible_indices();
        let ghost m = self@;
        let ghost vv = m.visible();
        assert(vv.len() == vis@.len());
        let ghost lines = m.saved_lines(vv);
        let ghost start = seq!["STATE\tNAME\tIMAGE\tPORTS\tID\n"@];
        let mut out: Vec<String> = Vec::new();
        text::push_text(&mut out, "STATE\tNAME\tIMAGE\tPORTS\tID\n".to_owned());
        let mut i: usize = 0;
        assert(out.deep_view() == start + lines.take(0));
        while i < vis.len()
            invariant
                i <= vis@.len(),
                m == self@,
                vv == positions(vis@),
                lines == m.saved_lines(vv),
                forall|i: int| 0 <= i < vis@.len() ==> #[trigger] vis@[i] < self.rows@.len(),
                out.deep_view() == start + lines.take(i as int),
            decreases vis@.len() - i,
        {
            let k: usize = vis[i];
            assert(vv[i as int] == k);
            assert(m.rows[k as int] == self.rows@[k as int]@);
            text::push_text(&mut out, saved_row(&self.rows[k]));
            assert(lines.take(i + 1) == lines.take(i as int).push(lines[i as int]));
            assert(out.deep_view() == start + lines.take(i + 1));
            i += 1;
        }
        assert(lines.take(lines.len() as int) == lines);
        let none: String = String::new();
        text::join(&out, none.as_str())
    }

    fn shell_key(&mut self, key: KeyEvent) -> (r: ContainersAction)
        requires
            old(self).shell is Some,
        ensures
            (final(self)@, r@) == old(self)@.shell_key(old(self).shell->0@, key),
    {
        match self.shell.take() {
            Some(s) => {
                let mut s = s;
                match s.on_key(key) {
                    ShellEvent::Nothing => {
                        self.shell = Some(s);
                        ContainersAction::Nothing
                    },
                    ShellEvent::Close => {
                        let ok = self.theme.ok;
                        self.say("🐚 shell closed", ok);
                        ContainersAction::Nothing
                    },
                    ShellEvent::Exec { job, script } => {
                        self.shell = Some(s);
                        ContainersAction::Shell { job, script }
                    },
                }
            },
            None => ContainersAction::Nothing,
        }
    }

    fn popup_key(&mut self, key: KeyEvent) -> (r: ContainersAction)
        requires
            old(self).popup is Some,
        ensures
            (final(self)@, r@) == old(self)@.popup_key(old(self).popup->0@, key),
    {
        match self.popup.take() {
            Some(Popup::Inspect(t)) => {
                if !list::is_close(key) {
                    self.popup = Some(Popup::Inspect(t));
                }
                ContainersAction::Nothing
            },
            Some(Popup::ConfirmDelete { items }) => {
                if list::is_no(key) {
                    ContainersAction::Nothing
                } else if list::is_yes(key) {
                    if items.len() == 0 {
                        ContainersAction::Nothing
                    } else {
                        ContainersAction::Remove(items)
                    }
                } else {
                    self.popup = Some(Popup::ConfirmDelete { items });
                    ContainersAction::Nothing
                }
            },
            None => ContainersAction::Nothing,
        }
    }

    fn search_key(&mut self, key: KeyEvent)
        ensures
            final(self)@ == old(self)@.search_key(key),
    {
        self.searching = list::search_key(&mut self.query, key);
        let n = self.visible_count();
        self.selected = list::clamp_cursor(self.selected, n);
    }

    fn no_container(&mut self)
        ensures
            final(self)@ == old(self)@.no_container(),
    {
        let warn = self.theme.warn;
        self.say("⚠ no container selected", warn);
    }

    fn no_selection(&mut self)
        ensures
            final(self)@ == old(self)@.no_selection(),
    {
        let warn = self.theme.warn;
        self.say("⚠ no selection", warn);
    }

    fn pause_key(&mut self) -> (r: ContainersAction)
        ensures
            (final(self)@, r@) == old(self)@.pause_key(),
    {
        match self.current() {
            Some(p) => match p.state {
                Some(ContainerState::Running) => ContainersAction::Pause(p.target),
                Some(ContainerState::Paused) => ContainersAction::Unpause(p.target),
                _ => {
                    let warn = self.theme.warn;
                    self.say("⚠ pause/unpause only for running/paused containers", warn);
                    ContainersAction::Nothing
                },
            },
            None => ContainersAction::Nothing,
        }
    }

    fn shell_open_key(&mut self) -> (r: ContainersAction)
        ensures
            (final(self)@, r@) == old(self)@.shell_open_key(),
    {
        match self.current() {
            Some(p) => match p.state {
                Some(ContainerState::Running) => ContainersAction::OpenShell(p.target),
                _ => {
                    let warn = self.theme.warn;
                    self.say("⚠ shell only available on a running container", warn);
                    ContainersAction::Nothing
                },
            },
            None => {
                self.no_container();
                ContainersAction::Nothing
            },
        }
    }

    fn move_down(&mut self)
        ensures
            final(self)@ == (ContainersModel {
                selected: list::moved_cursor(
                    old(self)@.selected,
                    old(self)@.visible().len() as int,
                    1,
                ),
                ..old(self)@
            }),
    {
        let n = self.visible_count();
        self.selected = list::cursor_down(self.selected, n);
    }

    fn move_up(&mut self)
        ensures
            final(self)@ == (ContainersModel {
                selected: list::moved_cursor(
                    old(self)@.selected,
                    old(self)@.visible().len() as int,
                    -1,
                ),
                ..old(self)@
            }),
    {
        let n = self.visible_count();
        self.selected = list::cursor_up(self.selected, n);
    }

    fn switch_current(&mut self)
        ensures
            final(self)@ == (match old(self)@.current() {
                Some(p) => old(self)@.queued(opposite(p.state), p.target),
                None => old(self)@.no_container(),
            }),
    {
        match self.current() {
            Some(p) => self.enqueue(next_action(p.state), p.target),
            None => self.no_container(),
        }
    }

    fn delete_current(&mut self)
        ensures
            final(self)@ == (match old(self)@.current() {
                Some(p) => (ContainersModel {
                    popup: Some(PopupView::ConfirmDelete { items: seq![p.target] }),
                    ..old(self)@
                }),
                None => old(self)@.no_container(),
            }),
    {
        match self.current() {
            Some(p) => {
                let ghost t = p.target@;
                let mut items: Vec<Target> = Vec::new();
                items.push(p.target);
                assert(items.deep_view() == seq![t]);
                self.popup = Some(Popup::ConfirmDelete { items });
            },
            None => self.no_container(),
        }
    }

    fn restart_current(&mut self)
        ensures
            final(self)@ == (match old(self)@.current() {
                Some(p) => old(self)@.queued(ActionKind::Stopping, p.target).queued(
                    ActionKind::Starting,
                    p.target,
                ),
                None => old(self)@.no_container(),
            }),
    {
        match self.current() {
            Some(p) => {
                self.enqueue(ActionKind::Stopping, copy_target(&p.target));
                self.enqueue(ActionKind::Starting, p.target);
            },
            None => self.no_container(),
        }
    }

    /// The next key to sort by.
    pub fn cycle_sort(&mut self)
        ensures
            final(self)@ == (ContainersModel {
                sort_key: next_sort(old(self)@.sort_key),
                ..old(self)@
            }),
    {
        self.sort_key = match self.sort_key {
            SortKey::Name => SortKey::Image,
            SortKey::Image => SortKey::State,
            SortKey::State => SortKey::Created,
            SortKey::Created => SortKey::Ports,
            SortKey::Ports => SortKey::Name,
        };
    }

    fn char_key(&mut self, c: char) -> (r: ContainersAction)
        ensures
            (final(self)@, r@) == old(self)@.list_key(
                KeyEvent { code: KeyCode::Char(c), control: false },
            ),
    {
        if c == 'j' {
            self.move_down();
        } else if c == 'k' {
            self.move_up();
        } else if c == 'a' {
            self.all = !self.all;
            return ContainersAction::Refresh { announce: false, strict: true };
        } else if c == 'r' {
            return ContainersAction::Refresh { announce: true, strict: true };
        } else if c == 'p' {
            return self.pause_key();
        } else if c == 'b' {
            return self.shell_open_key();
        } else if c == 'P' {
            let l = self.chosen();
            if l.len() == 0 {
                self.no_selection();
            } else {
                return ContainersAction::PauseMany(jobs_of(&l));
            }
        } else if c == '/' {
            self.searching = true;
            self.query = String::new();
        } else if c == 'o' {
            self.cycle_sort();
        } else if c == 'O' {
            self.sort_asc = !self.sort_asc;
        } else if c == 'x' {
            match self.current() {
                Some(p) => list::toggle(&mut self.selected_ids, p.target.id.as_str()),
                None => {},
            }
        } else if c == 'C' {
            self.selected_ids = StringHashSet::new();
        } else if c == 'A' {
            let l = self.chosen();
            if l.len() == 0 {
                self.no_selection();
            } else {
                self.enqueue_all(&l);
                let ok = self.theme.ok;
                self.say("🧰 batch queued", ok);
            }
        } else if c == ' ' {
            self.switch_current();
        } else if c == 'R' {
            self.restart_current();
        } else if c == 'i' {
            match self.current() {
                Some(p) => {
                    return ContainersAction::Inspect(p.target);
                },
                None => {},
            }
        } else if c == 'S' {
            return ContainersAction::Save(self.visible_table());
        } else if c == 'd' {
            self.delete_current();
        } else if c == 'D' {
            let l = self.chosen();
            if l.len() == 0 {
                self.no_selection();
            } else {
                self.popup = Some(Popup::ConfirmDelete { items: targets_of(&l) });
            }
        }
        ContainersAction::Nothing
    }

    fn list_key(&mut self, key: KeyEvent) -> (r: ContainersAction)
        ensures
            (final(self)@, r@) == old(self)@.list_key(key),
    {
        match key.code {
            KeyCode::Down => self.move_down(),
            KeyCode::Up => self.move_up(),
            KeyCode::F(n) => {
                if n == 5 {
                    return ContainersAction::Refresh { announce: true, strict: true };
                }
            },
            KeyCode::Enter => self.switch_current(),
            KeyCode::Delete => self.delete_current(),
            KeyCode::Char(c) => {
                return self.char_key(c);
            },
            _ => {},
        }
        ContainersAction::Nothing
    }

    /// A key is pressed. What needs the engine, the disk or a process comes back as a request.
    pub fn on_key(&mut self, key: KeyEvent) -> (r: ContainersAction)
        ensures
            (final(self)@, r@) == old(self)@.on_key(key),
    {
        if self.shell.is_some() {
            return self.shell_key(key);
        }
        if self.popup.is_some() {
            return self.popup_key(key);
        }
        if self.searching {
            self.search_key(key);
            return ContainersAction::Nothing;
        }
        self.list_key(key)
    }
}

/* ---------------- what comes back ---------------- */

/// How many of some jobs of one kind went well.
pub open spec fn done_count(jobs: Seq<PauseJobView>, errors: Seq<Option<Seq<char>>>, pause: bool) -> nat
    decreases jobs.len(),
{
    if jobs.len() == 0 {
        0
    } else {
        let before = done_count(jobs.drop_last(), errors, pause);
        if jobs.last().pause == pause && errors[jobs.len() - 1] is None {
            before + 1
        } else {
            before
        }
    }
}

/// The jobs that failed, each with its error.
pub open spec fn job_failures(jobs: Seq<PauseJobView>, errors: Seq<Option<Seq<char>>>) -> Seq<Seq<char>>
    decreases jobs.len(),
{
    if jobs.len() == 0 {
        Seq::empty()
    } else {
        let before = job_failures(jobs.drop_last(), errors);
        match errors[jobs.len() - 1] {
            Some(e) => before.push(jobs.last().target.name + ": "@ + e),
            None => before,
        }
    }
}

/// The containers that could not be removed, each with its error.
pub open spec fn removal_failures(
    items: Seq<TargetView>,
    errors: Seq<Option<Seq<char>>>,
) -> Seq<Seq<char>>
    decreases items.len(),
{
    if items.len() == 0 {
        Seq::empty()
    } else {
        let before = removal_failures(items.drop_last(), errors);
        match errors[items.len() - 1] {
            Some(e) => before.push(items.last().name + " ("@ + e + ")"@),
            None => before,
        }
    }
}

impl ContainersModel {
    /// What a pause or an unpause of one container came to.
    pub open spec fn paused(
        self,
        target: TargetView,
        pause: bool,
        r: Result<(), Seq<char>>,
    ) -> (ContainersModel, ContainersActionView) {
        match r {
            Ok(_) => (
                self.say(
                    (if pause {
                        "⏸ paused "@
                    } else {
                        "▶ unpaused "@
                    }) + target.name,
                    self.theme.ok,
                ),
                ContainersActionView::Refresh { announce: false, strict: false },
            ),
            Err(e) => (
                self.say(
                    (if pause {
                        "❌ pause: "@
                    } else {
                        "❌ unpause: "@
                    }) + e,
                    self.theme.err,
                ),
                ContainersActionView::Nothing,
            ),
        }
    }

    /// What a batch of pauses came to: the last thing there is to tell is told.
    pub open spec fn paused_many(
        self,
        jobs: Seq<PauseJobView>,
        errors: Seq<Option<Seq<char>>>,
    ) -> ContainersModel {
        let p = done_count(jobs, errors, true);
        let u = done_count(jobs, errors, false);
        let f = job_failures(jobs, errors);
        if f.len() > 0 {
            self.say("❌ "@ + text::joined(f, ", "@), self.theme.err)
        } else if u > 0 {
            self.say("▶ unpaused: "@ + text::decimal(u), self.theme.ok)
        } else if p > 0 {
            self.say("⏸ paused: "@ + text::decimal(p), self.theme.ok)
        } else {
            self
        }
    }

    /// What a removal came to.
    pub open spec fn removed(
        self,
        items: Seq<TargetView>,
        errors: Seq<Option<Seq<char>>>,
    ) -> ContainersModel {
        let f = removal_failures(items, errors);
        if f.len() > 0 {
            self.say("❌ failed: "@ + text::joined(f, ", "@), self.theme.err)
        } else if items.len() > 0 {
            self.say("🗑 removed: "@ + text::decimal(items.len()), self.theme.ok)
        } else {
            self
        }
    }

    /// A tick: the next action is begun where none is shown.
    pub open spec fn ticked(self) -> (ContainersModel, Option<QueuedView>) {
        let m = ContainersModel { tick: self.tick.wrapping_add(1), ..self };
        if self.anim is None && self.queue.len() > 0 {
            let q = self.queue[0];
            (
                ContainersModel {
                    anim: Some(AnimModel::fresh(q.kind, q.target.name)),
                    queue: self.queue.skip(1),
                    ..m
                },
                Some(q),
            )
        } else {
            (m, None)
        }
    }

    /// The action that is shown is over, and its bar and its rocket have arrived.
    pub open spec fn settles(self, bar_full: bool, rocket_done: bool) -> bool {
        self.anim matches Some(a) && a.result is Some && bar_full && rocket_done
    }

    pub open spec fn settled(self, bar_full: bool, rocket_done: bool) -> ContainersModel {
        if !self.settles(bar_full, rocket_done) {
            self
        } else {
            let a = self.anim->0;
            let m = ContainersModel { anim: None, ..self };
            match a.result->0 {
                Ok(_) => m.say(
                    (match a.kind {
                        ActionKind::Starting => "▶ started "@,
                        ActionKind::Stopping => "⏹ stopped "@,
                    }) + a.name,
                    self.theme.ok,
                ),
                Err(e) => m.say("❌ action "@ + a.name + ": "@ + e, self.theme.err),
            }
        }
    }
}

/// Enter and Space do the same: they stop the container under the cursor if it runs, and start
/// it if it does not.
pub proof fn enter_and_space_start_or_stop(m: ContainersModel, control: bool)
    requires
        !m.is_modal_open(),
        m.current() is Some,
    ensures
        ({
            let p = m.current()->0;
            let enter = m.on_key(KeyEvent { code: KeyCode::Enter, control });
            let space = m.on_key(KeyEvent { code: KeyCode::Char(' '), control });
            let kind = if p.state == Some(ContainerState::Running) {
                ActionKind::Stopping
            } else {
                ActionKind::Starting
            };
            &&& enter == space
            &&& enter.0.queue == m.queue.push(QueuedView { kind, target: p.target })
        }),
{
}

/// A restart is a stop and then a start of the same container.
pub proof fn restart_stops_and_starts(m: ContainersModel, control: bool)
    requires
        !m.is_modal_open(),
        m.current() is Some,
    ensures
        ({
            let t = m.current()->0.target;
            m.on_key(KeyEvent { code: KeyCode::Char('R'), control }).0.queue == m.queue.push(
                QueuedView { kind: ActionKind::Stopping, target: t },
            ).push(QueuedView { kind: ActionKind::Starting, target: t })
        }),
{
}

/// `r` and F5 do the same: they have the list read again.
pub proof fn r_and_f5_refresh(m: ContainersModel, control: bool)
    requires
        !m.is_modal_open(),
    ensures
        m.on_key(KeyEvent { code: KeyCode::F(5), control }) == m.on_key(
            KeyEvent { code: KeyCode::Char('r'), control },
        ),
        m.on_key(KeyEvent { code: KeyCode::F(5), control }).1 is Refresh,
{
}

/// Containers are removed only after the question was asked and agreed to, and only those that
/// it named.
pub proof fn nothing_is_removed_unasked(m: ContainersModel, key: KeyEvent)
    ensures
        m.on_key(key).1 matches ContainersActionView::Remove(items) ==> {
            &&& list::agrees(key)
            &&& m.popup == Some(PopupView::ConfirmDelete { items })
        },
{
}

/// A shell is opened only in a container that runs.
pub proof fn shell_needs_a_running_container(m: ContainersModel, key: KeyEvent)
    ensures
        m.on_key(key).1 matches ContainersActionView::OpenShell(t) ==> m.current() == Some(
            PickedView { target: t, state: Some(ContainerState::Running) },
        ),
{
}

/// The queue is worked off in order, one action at a time: none is begun while one is shown.
pub proof fn one_action_at_a_time(m: ContainersModel)
    ensures
        m.anim is Some ==> m.ticked().1 is None && m.ticked().0.anim == m.anim && m.ticked().0.queue
            == m.queue,
        m.anim is None && m.queue.len() > 0 ==> {
            &&& m.ticked().1 == Some(m.queue[0])
            &&& m.ticked().0.anim is Some
            &&& seq![m.queue[0]] + m.ticked().0.queue == m.queue
        },
{
    if m.anim is None && m.queue.len() > 0 {
        assert(seq![m.queue[0]] + m.queue.skip(1) == m.queue);
    }
}

/// Whatever key is pressed, the cursor of a list whose rows are read afresh, searched or walked
/// through stands on a row that is shown.
pub proof fn cursor_on_a_shown_row(m: ContainersModel, rows: Seq<ContainerModel>, now: u64, key: KeyEvent)
    requires
        m.visible().len() <= usize::MAX,
        m.refreshed(rows, now).visible().len() <= usize::MAX,
        m.search_key(key).visible().len() <= usize::MAX,
    ensures
        list::in_range(m.refreshed(rows, now).selected, m.refreshed(rows, now).visible().len() as int),
        list::in_range(m.search_key(key).selected, m.search_key(key).visible().len() as int),
        list::in_range(
            list::moved_cursor(m.selected, m.visible().len() as int, 1),
            m.visible().len() as int,
        ),
{
    let a = ContainersModel { rows, last_refresh: now, ..m };
    let b = m.refreshed(rows, now);
    assert(a.keep() =~= b.keep() && a.keys() =~= b.keys());
    list::cursor_stays_in_range(a.selected, a.visible().len() as int, 1);
    let (open, query) = list::searched(m.query, key);
    let c = ContainersModel { searching: open, query, ..m };
    let d = m.search_key(key);
    assert(c.keep() =~= d.keep() && c.keys() =~= d.keys());
}

/// The rows that are shown are exactly those that meet the query, each once and in order.
pub proof fn shows_what_meets_the_query(m: ContainersModel)
    ensures
        crate::order::is_arranged(m.visible(), m.keys(), m.sort_asc),
        m.visible().no_duplicates(),
        forall|k: int| #[trigger]
            m.visible().contains(k) <==> 0 <= k < m.rows.len() && m.rows[k].matches(
                query_tokens(text::words(m.query)),
                query_labels(text::words(m.query)),
            ),
{
    crate::order::arranged_is_sorted(m.keep(), m.keys(), m.sort_asc);
}

impl ContainersView {
    /// Takes the list that a key asked for.
    pub fn on_refreshed(&mut self, rows: Vec<ContainerSummary>, now: u64, announce: bool)
        ensures
            final(self)@ == (if announce {
                old(self)@.refreshed(rows.deep_view(), now).say("✅ refreshed"@, old(self)@.theme.ok)
            } else {
                old(self)@.refreshed(rows.deep_view(), now)
            }),
    {
        self.refresh(rows, now);
        if announce {
            let ok = self.theme.ok;
            self.say("✅ refreshed", ok);
        }
    }

    /// Takes the outcome of a pause or an unpause.
    pub fn on_paused(&mut self, target: Target, pause: bool, r: Result<(), String>) -> (a:
        ContainersAction)
        ensures
            (final(self)@, a@) == old(self)@.paused(target@, pause, outcome(r)),
    {
        match r {
            Ok(_) => {
                let msg = if pause {
                    text::cat("⏸ paused ", target.name.as_str())
                } else {
                    text::cat("▶ unpaused ", target.name.as_str())
                };
                let ok = self.theme.ok;
                self.say(msg.as_str(), ok);
                ContainersAction::Refresh { announce: false, strict: false }
            },
            Err(e) => {
                let msg = if pause {
                    text::cat("❌ pause: ", e.as_str())
                } else {
                    text::cat("❌ unpause: ", e.as_str())
                };
                let err = self.theme.err;
                self.say(msg.as_str(), err);
                ContainersAction::Nothing
            },
        }
    }

    /// Takes the outcomes of a batch of pauses, one for each job.
    pub fn on_paused_many(&mut self, jobs: &Vec<PauseJob>, errors: &Vec<Option<String>>)
        requires
            jobs@.len() == errors@.len(),
        ensures
            final(self)@ == old(self)@.paused_many(jobs.deep_view(), errors.deep_view()),
    {
        let ghost jv = jobs.deep_view();
        let ghost ev = errors.deep_view();
        let mut paused: u64 = 0;
        let mut unpaused: u64 = 0;
        let mut failures: Vec<String> = Vec::new();
        let mut i: usize = 0;
        assert(failures.deep_view() == job_failures(jv.take(0), ev));
        while i < jobs.len()
            invariant
                i <= jobs@.len() == errors@.len(),
                jv == jobs.deep_view(),
                ev == errors.deep_view(),
                paused == done_count(jv.take(i as int), ev, true),
                unpaused == done_count(jv.take(i as int), ev, false),
                paused <= i,
                unpaused <= i,
                failures.deep_view() == job_failures(jv.take(i as int), ev),
            decreases jobs@.len() - i,
        {
            assert(jv.take(i + 1).drop_last() == jv.take(i as int));
            assert(jv[i as int] == jobs@[i as int]@);
            assert(ev[i as int] == errors@[i as int].deep_view());
            match &errors[i] {
                Some(e) => {
                    let f = text::cat3(jobs[i].target.name.as_str(), ": ", e.as_str());
                    text::push_text(&mut failures, f);
                },
                None => {
                    if jobs[i].pause {
                        paused += 1;
                    } else {
                        unpaused += 1;
                    }
                },
            }
            i += 1;
        }
        assert(jv.take(jv.len() as int) == jv);
        assert(failures.deep_view().len() == failures@.len());
        let ok = self.theme.ok;
        let err = self.theme.err;
        if failures.len() > 0 {
            let msg = text::cat("❌ ", text::join(&failures, ", ").as_str());
            self.say(msg.as_str(), err);
        } else if unpaused > 0 {
            let msg = text::cat("▶ unpaused: ", text::number(unpaused).as_str());
            self.say(msg.as_str(), ok);
        } else if paused > 0 {
            let msg = text::cat("⏸ paused: ", text::number(paused).as_str());
            self.say(msg.as_str(), ok);
        }
    }

    /// Takes the outcomes of a removal, one for each container.
    pub fn on_removed(&mut self, items: &Vec<Target>, errors: &Vec<Option<String>>)
        requires
            items@.len() == errors@.len(),
        ensures
            final(self)@ == old(self)@.removed(items.deep_view(), errors.deep_view()),
    {
        let ghost iv = items.deep_view();
        let ghost ev = errors.deep_view();
        let mut failures: Vec<String> = Vec::new();
        let mut i: usize = 0;
        assert(failures.deep_view() == removal_failures(iv.take(0), ev));
        while i < items.len()
            invariant
                i <= items@.len() == errors@.len(),
                iv == items.deep_view(),
                ev == errors.deep_view(),
                failures.deep_view() == removal_failures(iv.take(i as int), ev),
            decreases items@.len() - i,
        {
            assert(iv.take(i + 1).drop_last() == iv.take(i as int));
            assert(iv[i as int] == items@[i as int]@);
            assert(ev[i as int] == errors@[i as int].deep_view());
            match &errors[i] {
                Some(e) => {
                    let mut f = text::cat3(items[i].name.as_str(), " (", e.as_str());
                    f.append(")");
                    text::push_text(&mut failures, f);
                },
                None => {},
            }
            i += 1;
        }
        assert(iv.take(iv.len() as int) == iv);
        assert(failures.deep_view().len() == failures@.len());
        let ok = self.theme.ok;
        let err = self.theme.err;
        if failures.len() > 0 {
            let msg = text::cat("❌ failed: ", text::join(&failures, ", ").as_str());
            self.say(msg.as_str(), err);
        } else if items.len() > 0 {
            let msg = text::cat("🗑 removed: ", text::number(items.len() as u64).as_str());
            self.say(msg.as_str(), ok);
        }
    }

    /// Takes the details that a key asked for.
    pub fn on_inspected(&mut self, name: &str, r: Result<InspectInfo, String>)
        ensures
            final(self)@ == (match r {
                Ok(ins) => (ContainersModel {
                    popup: Some(PopupView::Inspect(ins.text(name@))),
                    ..old(self)@
                }),
                Err(e) => old(self)@.say("❌ inspect: "@ + e@, old(self)@.theme.err),
            }),
    {
        match r {
            Ok(ins) => {
                self.popup = Some(Popup::Inspect(format_inspect(name, &ins)));
            },
            Err(e) => {
                let err = self.theme.err;
                self.say(text::cat("❌ inspect: ", e.as_str()).as_str(), err);
            },
        }
    }

    /// Takes the outcome of saving the list: where it was saved, or an error.
    pub fn on_saved(&mut self, r: Result<String, String>)
        ensures
            final(self)@ == (match r {
                Ok(path) => old(self)@.say("💾 saved "@ + path@, old(self)@.theme.ok),
                Err(e) => old(self)@.say("❌ save: "@ + e@, old(self)@.theme.err),
            }),
    {
        match r {
            Ok(path) => {
                let ok = self.theme.ok;
                self.say(text::cat("💾 saved ", path.as_str()).as_str(), ok);
            },
            Err(e) => {
                let err = self.theme.err;
                self.say(text::cat("❌ save: ", e.as_str()).as_str(), err);
            },
        }
    }

    /// Opens a shell.
    pub fn open_shell(&mut self, sh: ShellPopup)
        ensures
            final(self)@ == (ContainersModel { shell: Some(sh@), ..old(self)@ }),
    {
        self.shell = Some(sh);
    }

    /// Takes what a script that the shell asked for came to.
    pub fn on_shell_result(&mut self, job: ShellJob, res: Result<CommandOutput, String>)
        ensures
            final(self)@ == (match old(self)@.shell {
                Some(s) => (ContainersModel {
                    shell: Some(s.finish(job@, script_outcome(job@, res))),
                    ..old(self)@
                }),
                None => old(self)@,
            }),
    {
        match self.shell.take() {
            Some(s) => {
                let mut s = s;
                s.finish(job, res);
                self.shell = Some(s);
            },
            None => {},
        }
    }

    /// A tick. An action that has to be begun comes back.
    pub fn on_tick(&mut self) -> (r: Option<QueuedAction>)
        ensures
            (final(self)@, (match r {
                Some(q) => Some(q@),
                None => None,
            })) == old(self)@.ticked(),
    {
        self.tick = self.tick.wrapping_add(1);
        if self.anim.is_none() {
            let ghost before = queue_view(self.queue@);
            match self.queue.pop_front() {
                Some(q) => {
                    assert(queue_view(self.queue@) == before.skip(1));
                    assert(before[0] == q@);
                    self.anim = Some(ActionAnim::new(q.kind, q.target.name.clone()));
                    return Some(q);
                },
                None => {},
            }
        }
        None
    }

    /// Takes a report of the action that is shown.
    pub fn on_bar_update(&mut self, u: BarUpdate)
        ensures
            final(self)@ == (match old(self)@.anim {
                Some(a) => (ContainersModel {
                    anim: Some(
                        AnimModel {
                            bar_phase: u.phase,
                            bar_target_pct: if u.pct > 100 {
                                100
                            } else {
                                u.pct
                            },
                            ..a
                        },
                    ),
                    ..old(self)@
                }),
                None => old(self)@,
            }),
    {
        match self.anim.take() {
            Some(a) => {
                let mut a = a;
                a.on_update(u);
                self.anim = Some(a);
            },
            None => {},
        }
    }

    /// Takes the outcome of the action that is shown.
    pub fn on_action_end(&mut self, r: Result<(), String>)
        ensures
            final(self)@ == (match old(self)@.anim {
                Some(a) => (ContainersModel {
                    anim: Some(AnimModel { result: Some(outcome(r)), ..a }),
                    ..old(self)@
                }),
                None => old(self)@,
            }),
    {
        match self.anim.take() {
            Some(a) => {
                let mut a = a;
                a.on_end(r);
                self.anim = Some(a);
            },
            None => {},
        }
    }

    /// Closes the action that is shown, once it is over and its bar and its rocket have arrived.
    /// Returns whether it did, and the list has to be read again.
    pub fn settle(&mut self, bar_full: bool, rocket_done: bool) -> (r: bool)
        ensures
            r == old(self)@.settles(bar_full, rocket_done),
            final(self)@ == old(self)@.settled(bar_full, rocket_done),
    {
        match self.anim.take() {
            Some(a) => {
                if a.result.is_some() && bar_full && rocket_done {
                    let ok = self.theme.ok;
                    let err = self.theme.err;
                    match a.result {
                        Some(Ok(_)) => {
                            let msg = match a.kind {
                                ActionKind::Starting => text::cat("▶ started ", a.name.as_str()),
                                ActionKind::Stopping => text::cat("⏹ stopped ", a.name.as_str()),
                            };
                            self.say(msg.as_str(), ok);
                        },
                        Some(Err(e)) => {
                            let mut msg = text::cat3("❌ action ", a.name.as_str(), ": ");
                            msg.append(e.as_str());
                            self.say(msg.as_str(), err);
                        },
                        None => {},
                    }
                    true
                } else {
                    self.anim = Some(a);
                    false
                }
            },
            None => false,
        }
    }
}

} // verus!
