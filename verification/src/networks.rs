//! The list of networks.

use crate::containers::util::{middle_cut, truncate_middle};
use crate::key::{KeyCode, KeyEvent};
use crate::list;
use crate::order::{arrange, arranged, positions, SortValue, SortValueView};
use crate::output::{code_text, lossy, lossy_text, show_code, CommandOutput};
use crate::text;
use crate::theme::{note_view, Color, Note, Theme};
use vstd::prelude::*;

verus! {

pub struct NetworkRow {
    pub id: String,
    pub name: String,
    pub driver: String,
    pub scope: String,
}

#[verifier::ext_equal]
pub struct NetworkModel {
    pub id: Seq<char>,
    pub name: Seq<char>,
    pub driver: Seq<char>,
    pub scope: Seq<char>,
}

impl View for NetworkRow {
    type V = NetworkModel;

    open spec fn view(&self) -> NetworkModel {
        NetworkModel {
            id: self.id@,
            name: self.name@,
            driver: self.driver@,
            scope: self.scope@,
        }
    }
}

impl DeepView for NetworkRow {
    type V = NetworkModel;

    open spec fn deep_view(&self) -> NetworkModel {
        self@
    }
}

#[derive(Clone, Copy, Debug, PartialEq, Eq, Structural)]
pub enum SortKey {
    Name,
    Driver,
    Scope,
}

/* ---------------- reading the list ---------------- */

/// A line of the listing: four fields with tabs between them. A line with fewer gives no row.
pub open spec fn row_of(line: Seq<char>) -> Option<NetworkModel> {
    let p = text::parts(text::trimmed(line), '\t');
    if p.len() < 4 {
        None
    } else {
        Some(NetworkModel { id: p[0], name: p[1], driver: p[2], scope: p[3] })
    }
}

pub open spec fn rows_of(lines: Seq<Seq<char>>) -> Seq<NetworkModel>
    decreases lines.len(),
{
    if lines.len() == 0 {
        Seq::empty()
    } else {
        let before = rows_of(lines.drop_last());
        match row_of(lines.last()) {
            Some(m) => before.push(m),
            None => before,
        }
    }
}

fn parse_row(line: &str) -> (r: Option<NetworkRow>)
    ensures
        r.deep_view() == row_of(line@),
{
    let t = text::trim(line);
    let p = text::split(t.as_str(), '\t');
    let ghost pv = p.deep_view();
    if p.len() < 4 {
        return None;
    }
    assert(pv[0] == p@[0]@ && pv[1] == p@[1]@ && pv[2] == p@[2]@ && pv[3] == p@[3]@);
    Some(
        NetworkRow {
            id: p[0].clone(),
            name: p[1].clone(),
            driver: p[2].clone(),
            scope: p[3].clone(),
        },
    )
}

/// The networks that a listing names.
pub fn parse_networks(stdout: &str) -> (r: Vec<NetworkRow>)
    ensures
        r.deep_view() == rows_of(text::lines_of(stdout@)),
{
    let lines = text::lines(stdout);
    let ghost lv = lines.deep_view();
    let mut out: Vec<NetworkRow> = Vec::new();
    let mut i: usize = 0;
    assert(out.deep_view() == rows_of(lv.take(0)));
    while i < lines.len()
        invariant
            i <= lines@.len(),
            lv == lines.deep_view(),
            out.deep_view() == rows_of(lv.take(i as int)),
        decreases lines@.len() - i,
    {
        assert(lv.take(i + 1).drop_last() == lv.take(i as int));
        assert(lv[i as int] == lines@[i as int]@);
        let ghost before = out.deep_view();
        match parse_row(lines[i].as_str()) {
            Some(n) => {
                out.push(n);
                assert(out.deep_view() == before.push(n@));
            },
            None => {},
        }
        i += 1;
    }
    assert(lv.take(lv.len() as int) == lv);
    out
}

/// The arguments with which `docker` lists the networks.
pub fn list_args() -> (r: Vec<String>)
    ensures
        r.deep_view() == seq![
            "network"@,
            "ls"@,
            "--format"@,
            "{{.ID}}\t{{.Name}}\t{{.Driver}}\t{{.Scope}}"@,
        ],
{
    let mut args: Vec<String> = Vec::new();
    text::push_text(&mut args, "network".to_owned());
    text::push_text(&mut args, "ls".to_owned());
    text::push_text(&mut args, "--format".to_owned());
    text::push_text(&mut args, "{{.ID}}\t{{.Name}}\t{{.Driver}}\t{{.Scope}}".to_owned());
    assert(args.deep_view() == seq![
        "network"@,
        "ls"@,
        "--format"@,
        "{{.ID}}\t{{.Name}}\t{{.Driver}}\t{{.Scope}}"@,
    ]);
    args
}

/// The arguments with which `docker` shows a network.
pub fn inspect_args(id: &str) -> (r: Vec<String>)
    ensures
        r.deep_view() == seq!["network"@, "inspect"@, id@],
{
    let mut args: Vec<String> = Vec::new();
    text::push_text(&mut args, "network".to_owned());
    text::push_text(&mut args, "inspect".to_owned());
    text::push_text(&mut args, id.to_owned());
    assert(args.deep_view() == seq!["network"@, "inspect"@, id@]);
    args
}

/// The arguments with which `docker` removes a network.
pub fn remove_args(id: &str) -> (r: Vec<String>)
    ensures
        r.deep_view() == seq!["network"@, "rm"@, id@],
{
    let mut args: Vec<String> = Vec::new();
    text::push_text(&mut args, "network".to_owned());
    text::push_text(&mut args, "rm".to_owned());
    text::push_text(&mut args, id.to_owned());
    assert(args.deep_view() == seq!["network"@, "rm"@, id@]);
    args
}

/// The networks that a listing came to, or why there is none.
pub fn fetch_networks(out: &CommandOutput) -> (r: Result<Vec<NetworkRow>, String>)
    ensures
        match r {
            Ok(l) => out.success && l.deep_view() == rows_of(text::lines_of(lossy(out.stdout@))),
            Err(e) => !out.success && e@ == "docker network ls failed: "@ + lossy(out.stderr@),
        },
{
    if !out.success {
        let err = lossy_text(out.stderr.as_slice());
        return Err(text::cat("docker network ls failed: ", err.as_str()));
    }
    let stdout = lossy_text(out.stdout.as_slice());
    Ok(parse_networks(stdout.as_str()))
}

/* ---------------- finding and sorting ---------------- */

/// The networks that every engine has.
pub open spec fn is_builtin(name: Seq<char>) -> bool {
    name == "bridge"@ || name == "host"@ || name == "none"@
}

pub fn is_builtin_network_name(name: &str) -> (r: bool)
    ensures
        r == is_builtin(name@),
{
    text::same(name, "bridge") || text::same(name, "host") || text::same(name, "none")
}

pub open spec fn all_held(hay: Seq<char>, tokens: Seq<Seq<char>>) -> bool {
    forall|i: int| 0 <= i < tokens.len() ==> text::holds(hay, #[trigger] tokens[i])
}

/// Are all words found in a text?
pub fn holds_all(hay: &str, tokens: &Vec<String>) -> (r: bool)
    ensures
        r == all_held(hay@, tokens.deep_view()),
{
    let ghost tv = tokens.deep_view();
    let mut i: usize = 0;
    while i < tokens.len()
        invariant
            i <= tokens@.len(),
            tv == tokens.deep_view(),
            forall|k: int| 0 <= k < i ==> text::holds(hay@, #[trigger] tv[k]),
        decreases tokens@.len() - i,
    {
        assert(tv[i as int] == tokens@[i as int]@);
        if !text::contains(hay, tokens[i].as_str()) {
            return false;
        }
        i += 1;
    }
    true
}

impl NetworkModel {
    /// What a query is looked for in.
    pub open spec fn hay(self) -> Seq<char> {
        text::lowercase(self.name) + " "@ + text::lowercase(self.id) + " "@ + text::lowercase(
            self.driver,
        ) + " "@ + text::lowercase(self.scope)
    }

    pub open spec fn matches(self, tokens: Seq<Seq<char>>, show_builtin: bool) -> bool {
        (show_builtin || !is_builtin(self.name)) && all_held(self.hay(), tokens)
    }

    pub open spec fn sort_value(self, key: SortKey) -> SortValueView {
        SortValueView::Text(
            text::lowercase(
                match key {
                    SortKey::Name => self.name,
                    SortKey::Driver => self.driver,
                    SortKey::Scope => self.scope,
                },
            ),
        )
    }
}

/// Does a network meet a query?
pub fn match_visible(nw: &NetworkRow, tokens: &Vec<String>, show_builtin: bool) -> (r: bool)
    ensures
        r == nw@.matches(tokens.deep_view(), show_builtin),
{
    if !show_builtin && is_builtin_network_name(nw.name.as_str()) {
        return false;
    }
    let mut hay = text::cat3(
        text::lower(nw.name.as_str()).as_str(),
        " ",
        text::lower(nw.id.as_str()).as_str(),
    );
    hay.append(" ");
    hay.append(text::lower(nw.driver.as_str()).as_str());
    hay.append(" ");
    hay.append(text::lower(nw.scope.as_str()).as_str());
    holds_all(hay.as_str(), tokens)
}

pub fn key_name(nw: &NetworkRow) -> (r: String)
    ensures
        r@ == text::lowercase(nw@.name),
{
    text::lower(nw.name.as_str())
}

pub fn key_driver(nw: &NetworkRow) -> (r: String)
    ensures
        r@ == text::lowercase(nw@.driver),
{
    text::lower(nw.driver.as_str())
}

pub fn key_scope(nw: &NetworkRow) -> (r: String)
    ensures
        r@ == text::lowercase(nw@.scope),
{
    text::lower(nw.scope.as_str())
}

fn sort_value(nw: &NetworkRow, key: SortKey) -> (r: SortValue)
    ensures
        r@ == nw@.sort_value(key),
{
    match key {
        SortKey::Name => SortValue::Text(key_name(nw)),
        SortKey::Driver => SortValue::Text(key_driver(nw)),
        SortKey::Scope => SortValue::Text(key_scope(nw)),
    }
}

pub open spec fn next_sort(k: SortKey) -> SortKey {
    match k {
        SortKey::Name => SortKey::Driver,
        SortKey::Driver => SortKey::Scope,
        SortKey::Scope => SortKey::Name,
    }
}

/// Each key comes round again.
pub proof fn sort_keys_cycle(k: SortKey)
    ensures
        next_sort(next_sort(next_sort(k))) == k,
        next_sort(k) != k,
{
}

/* ---------------- the list ---------------- */

pub enum Popup {
    ConfirmDelete { id: String, name: String },
    Inspect(String),
}

#[verifier::ext_equal]
pub enum PopupView {
    ConfirmDelete { id: Seq<char>, name: Seq<char> },
    Inspect(Seq<char>),
}

impl View for Popup {
    type V = PopupView;

    open spec fn view(&self) -> PopupView {
        match self {
            Popup::ConfirmDelete { id, name } => PopupView::ConfirmDelete { id: id@, name: name@ },
            Popup::Inspect(t) => PopupView::Inspect(t@),
        }
    }
}

/// What a key asks of the owner of the list.
pub enum NetworksAction {
    Nothing,
    /// List the networks again, and tell the user.
    Refresh,
    Inspect(String),
    Delete { id: String, name: String },
}

#[verifier::ext_equal]
pub enum NetworksActionView {
    Nothing,
    Refresh,
    Inspect(Seq<char>),
    Delete { id: Seq<char>, name: Seq<char> },
}

impl View for NetworksAction {
    type V = NetworksActionView;

    open spec fn view(&self) -> NetworksActionView {
        match self {
            NetworksAction::Nothing => NetworksActionView::Nothing,
            NetworksAction::Refresh => NetworksActionView::Refresh,
            NetworksAction::Inspect(id) => NetworksActionView::Inspect(id@),
            NetworksAction::Delete { id, name } => NetworksActionView::Delete {
                id: id@,
                name: name@,
            },
        }
    }
}

pub struct NetworksView {
    pub theme: Theme,
    pub rows: Vec<NetworkRow>,
    pub selected: Option<usize>,
    pub last_note: Note,
    pub last_refresh: u64,
    pub tick: u64,
    pub searching: bool,
    pub query: String,
    pub show_builtin: bool,
    pub sort_key: SortKey,
    pub sort_asc: bool,
    pub popup: Option<Popup>,
}

#[verifier::ext_equal]
pub struct NetworksModel {
    pub theme: Theme,
    pub rows: Seq<NetworkModel>,
    pub selected: Option<usize>,
    pub note: Option<(Seq<char>, Color)>,
    pub last_refresh: u64,
    pub tick: u64,
    pub searching: bool,
    pub query: Seq<char>,
    pub show_builtin: bool,
    pub sort_key: SortKey,
    pub sort_asc: bool,
    pub popup: Option<PopupView>,
}

impl View for NetworksView {
    type V = NetworksModel;

    open spec fn view(&self) -> NetworksModel {
        NetworksModel {
            theme: self.theme,
            rows: self.rows.deep_view(),
            selected: self.selected,
            note: note_view(self.last_note),
            last_refresh: self.last_refresh,
            tick: self.tick,
            searching: self.searching,
            query: self.query@,
            show_builtin: self.show_builtin,
            sort_key: self.sort_key,
            sort_asc: self.sort_asc,
            popup: match self.popup {
                Some(p) => Some(p@),
                None => None,
            },
        }
    }
}

impl NetworksModel {
    pub open spec fn fresh(theme: Theme, now: u64) -> NetworksModel {
        NetworksModel {
            theme,
            rows: Seq::empty(),
            selected: None,
            note: None,
            last_refresh: now,
            tick: 0,
            searching: false,
            query: Seq::empty(),
            show_builtin: false,
            sort_key: SortKey::Name,
            sort_asc: true,
            popup: None,
        }
    }

    pub open spec fn keep(self) -> Seq<bool> {
        Seq::new(
            self.rows.len(),
            |i: int|
                self.rows[i].matches(
                    list::lower_words(text::words(self.query)),
                    self.show_builtin,
                ),
        )
    }

    pub open spec fn keys(self) -> Seq<SortValueView> {
        Seq::new(self.rows.len(), |i: int| self.rows[i].sort_value(self.sort_key))
    }

    /// The rows that are shown.
    pub open spec fn visible(self) -> Seq<int> {
        arranged(self.keep(), self.keys(), self.sort_asc)
    }

    /// The network under the cursor.
    pub open spec fn current(self) -> Option<NetworkModel> {
        match self.selected {
            Some(i) => if i < self.visible().len() {
                Some(self.rows[self.visible()[i as int]])
            } else {
                None
            },
            None => None,
        }
    }

    pub open spec fn say(self, msg: Seq<char>, color: Color) -> NetworksModel {
        NetworksModel { note: Some((msg, color)), ..self }
    }

    pub open spec fn no_network(self) -> NetworksModel {
        self.say("⚠ no network selected"@, self.theme.warn)
    }

    pub open spec fn refreshed(self, rows: Seq<NetworkModel>, now: u64) -> NetworksModel {
        let m = NetworksModel { rows, last_refresh: now, ..self };
        NetworksModel {
            selected: list::clamped_cursor(m.selected, m.visible().len() as int),
            ..m
        }
    }

    pub open spec fn popup_key(self, p: PopupView, key: KeyEvent) -> (
        NetworksModel,
        NetworksActionView,
    ) {
        let closed = NetworksModel { popup: None, ..self };
        let none = NetworksActionView::Nothing;
        match p {
            PopupView::Inspect(_) => if list::closes(key) {
                (closed, none)
            } else {
                (self, none)
            },
            PopupView::ConfirmDelete { id, name } => if list::refuses(key) {
                (closed, none)
            } else if list::agrees(key) {
                (closed, NetworksActionView::Delete { id, name })
            } else {
                (self, none)
            },
        }
    }

    pub open spec fn search_key(self, key: KeyEvent) -> NetworksModel {
        let (open, query) = list::searched(self.query, key);
        let m = NetworksModel { searching: open, query, ..self };
        NetworksModel {
            selected: list::clamped_cursor(m.selected, m.visible().len() as int),
            ..m
        }
    }

    /// The key that deletes the current network: those that every engine has stay.
    pub open spec fn delete_key(self) -> NetworksModel {
        match self.current() {
            Some(m) => if is_builtin(m.name) {
                self.say(
                    "⚠ built-in network cannot be removed (bridge/host/none)"@,
                    self.theme.warn,
                )
            } else {
                NetworksModel {
                    popup: Some(PopupView::ConfirmDelete { id: m.id, name: m.name }),
                    ..self
                }
            },
            None => self.no_network(),
        }
    }

    pub open spec fn list_key(self, key: KeyEvent) -> (NetworksModel, NetworksActionView) {
        let none = NetworksActionView::Nothing;
        let n = self.visible().len() as int;
        let down = NetworksModel { selected: list::moved_cursor(self.selected, n, 1), ..self };
        let up = NetworksModel { selected: list::moved_cursor(self.selected, n, -1), ..self };
        match key.code {
            KeyCode::Down => (down, none),
            KeyCode::Up => (up, none),
            KeyCode::F(5) => (self, NetworksActionView::Refresh),
            KeyCode::Delete => (self.delete_key(), none),
            KeyCode::Char(c) => if c == 'j' {
                (down, none)
            } else if c == 'k' {
                (up, none)
            } else if c == 'r' {
                (self, NetworksActionView::Refresh)
            } else if c == 'a' {
                (NetworksModel { show_builtin: !self.show_builtin, ..self }, none)
            } else if c == '/' {
                (NetworksModel { searching: true, query: Seq::empty(), ..self }, none)
            } else if c == 'o' {
                (NetworksModel { sort_key: next_sort(self.sort_key), ..self }, none)
            } else if c == 'O' {
                (NetworksModel { sort_asc: !self.sort_asc, ..self }, none)
            } else if c == 'i' {
                match self.current() {
                    Some(m) => (self, NetworksActionView::Inspect(m.id)),
                    None => (self.no_network(), none),
                }
            } else if c == 'd' {
                (self.delete_key(), none)
            } else {
                (self, none)
            },
            _ => (self, none),
        }
    }

    /// A key is pressed: it goes to a popup, to the search line or to the list, whichever is open
    /// first.
    pub open spec fn on_key(self, key: KeyEvent) -> (NetworksModel, NetworksActionView) {
        match self.popup {
            Some(p) => self.popup_key(p, key),
            None => if self.searching {
                (self.search_key(key), NetworksActionView::Nothing)
            } else {
                self.list_key(key)
            },
        }
    }

    pub open spec fn is_modal_open(self) -> bool {
        self.popup is Some || self.searching
    }
}

/// The networks that every engine has are never asked to be deleted, and so never are.
pub proof fn builtin_networks_stay(m: NetworksModel, key: KeyEvent)
    requires
        m.popup matches Some(PopupView::ConfirmDelete { id, name }) ==> !is_builtin(name),
    ensures
        m.on_key(key).0.popup matches Some(PopupView::ConfirmDelete { id, name }) ==> !is_builtin(
            name,
        ),
        m.on_key(key).1 matches NetworksActionView::Delete { id, name } ==> !is_builtin(name),
{
}

/// A network is deleted only after the question was asked and agreed to.
pub proof fn nothing_is_removed_unasked(m: NetworksModel, key: KeyEvent)
    ensures
        m.on_key(key).1 matches NetworksActionView::Delete { id, name } ==> {
            &&& list::agrees(key)
            &&& m.popup == Some(PopupView::ConfirmDelete { id, name })
        },
{
}

/// The rows that are shown are exactly those that meet the query, each once and in order.
pub proof fn shows_what_meets_the_query(m: NetworksModel)
    ensures
        crate::order::is_arranged(m.visible(), m.keys(), m.sort_asc),
        m.visible().no_duplicates(),
        forall|k: int| #[trigger]
            m.visible().contains(k) <==> 0 <= k < m.rows.len() && m.rows[k].matches(
                list::lower_words(text::words(m.query)),
                m.show_builtin,
            ),
{
    crate::order::arranged_is_sorted(m.keep(), m.keys(), m.sort_asc);
}

impl NetworksView {
    pub fn new(theme: Theme, now: u64) -> (r: NetworksView)
        ensures
            r@ == NetworksModel::fresh(theme, now),
    {
        NetworksView {
            theme,
            rows: Vec::new(),
            selected: None,
            last_note: None,
            last_refresh: now,
            tick: 0,
            searching: false,
            query: String::new(),
            show_builtin: false,
            sort_key: SortKey::Name,
            sort_asc: true,
            popup: None,
        }
    }

    pub fn on_tick(&mut self)
        ensures
            final(self)@ == (NetworksModel { tick: old(self)@.tick.wrapping_add(1), ..old(self)@ }),
    {
        self.tick = self.tick.wrapping_add(1);
    }

    pub fn is_modal_open(&self) -> (r: bool)
        ensures
            r == self@.is_modal_open(),
    {
        self.popup.is_some() || self.searching
    }

    pub fn has_modal(&self) -> (r: bool)
        ensures
            r == self@.is_modal_open(),
    {
        self.is_modal_open()
    }

    /// The rows that are shown: those that meet the query, sorted.
    pub fn visible_indices(&self) -> (r: Vec<usize>)
        ensures
            positions(r@) == self@.visible(),
            forall|i: int| 0 <= i < r@.len() ==> #[trigger] r@[i] < self.rows@.len(),
    {
        let tokens = list::query_words(self.query.as_str());
        let ghost m = self@;
        let mut keep: Vec<bool> = Vec::new();
        let mut keys: Vec<SortValue> = Vec::new();
        let mut i: usize = 0;
        assert(keys.deep_view() == m.keys().take(0));
        while i < self.rows.len()
            invariant
                i <= self.rows@.len(),
                m == self@,
                tokens.deep_view() == list::lower_words(text::words(m.query)),
                keep@ == m.keep().take(i as int),
                keys.deep_view() == m.keys().take(i as int),
            decreases self.rows@.len() - i,
        {
            assert(m.rows[i as int] == self.rows@[i as int]@);
            keep.push(match_visible(&self.rows[i], &tokens, self.show_builtin));
            let ghost before = keys.deep_view();
            let k = sort_value(&self.rows[i], self.sort_key);
            keys.push(k);
            assert(keys.deep_view() == before.push(k@));
            assert(m.keys().take(i + 1) == m.keys().take(i as int).push(m.keys()[i as int]));
            assert(m.keep().take(i + 1) == m.keep().take(i as int).push(m.keep()[i as int]));
            i += 1;
        }
        assert(m.keep().take(m.rows.len() as int) == m.keep());
        assert(m.keys().take(m.rows.len() as int) == m.keys());
        arrange(&keep, &keys, self.sort_asc)
    }

    fn visible_count(&self) -> (r: usize)
        ensures
            r == self@.visible().len(),
    {
        let v = self.visible_indices();
        assert(positions(v@).len() == v@.len());
        v.len()
    }

    /// Takes a fresh list of networks.
    pub fn refresh(&mut self, rows: Vec<NetworkRow>, now: u64)
        ensures
            final(self)@ == old(self)@.refreshed(rows.deep_view(), now),
    {
        self.rows = rows;
        self.last_refresh = now;
        let n = self.visible_count();
        self.selected = list::clamp_cursor(self.selected, n);
    }

    /// The id and the name of the network under the cursor.
    pub fn current_id_and_name(&self) -> (r: Option<(String, String)>)
        ensures
            r.deep_view() == (match self@.current() {
                Some(m) => Some((m.id, m.name)),
                None => None,
            }),
    {
        match self.selected {
            Some(i) => {
                let vis = self.visible_indices();
                assert(positions(vis@).len() == vis@.len());
                if i < vis.len() {
                    assert(self@.visible()[i as int] == vis@[i as int]);
                    let k: usize = vis[i];
                    assert(self@.rows[k as int] == self.rows@[k as int]@);
                    Some((self.rows[k].id.clone(), self.rows[k].name.clone()))
                } else {
                    None
                }
            },
            None => None,
        }
    }

    fn say(&mut self, msg: &str, color: Color)
        ensures
            final(self)@ == old(self)@.say(msg@, color),
    {
        self.last_note = Some((msg.to_owned(), color));
    }

    fn no_network(&mut self)
        ensures
            final(self)@ == old(self)@.no_network(),
    {
        let warn = self.theme.warn;
        self.say("⚠ no network selected", warn);
    }

    fn popup_key(&mut self, key: KeyEvent) -> (r: NetworksAction)
        requires
            old(self).popup is Some,
        ensures
            (final(self)@, r@) == old(self)@.popup_key(old(self).popup->0@, key),
    {
        match self.popup.take() {
            Some(Popup::Inspect(t)) => {
                if !list::is_close(key) {
                    self.popup = Some(Popup::Inspect(t));
                }
                NetworksAction::Nothing
            },
            Some(Popup::ConfirmDelete { id, name }) => {
                if list::is_no(key) {
                    NetworksAction::Nothing
                } else if list::is_yes(key) {
                    NetworksAction::Delete { id, name }
                } else {
                    self.popup = Some(Popup::ConfirmDelete { id, name });
                    NetworksAction::Nothing
                }
            },
            None => NetworksAction::Nothing,
        }
    }

    fn delete_key(&mut self)
        ensures
            final(self)@ == old(self)@.delete_key(),
    {
        match self.current_id_and_name() {
            Some(p) => {
                if is_builtin_network_name(p.1.as_str()) {
                    let warn = self.theme.warn;
                    self.say("⚠ built-in network cannot be removed (bridge/host/none)", warn);
                } else {
                    self.popup = Some(Popup::ConfirmDelete { id: p.0, name: p.1 });
                }
            },
            None => self.no_network(),
        }
    }

    /// The next key to sort by.
    pub fn cycle_sort(&mut self)
        ensures
            final(self)@ == (NetworksModel {
                sort_key: next_sort(old(self)@.sort_key),
                ..old(self)@
            }),
    {
        self.sort_key = match self.sort_key {
            SortKey::Name => SortKey::Driver,
            SortKey::Driver => SortKey::Scope,
            SortKey::Scope => SortKey::Name,
        };
    }

    fn move_down(&mut self)
        ensures
            final(self)@ == (NetworksModel {
                selected: list::moved_cursor(
                    old(self)@.selected,
                    old(self)@.visible().len() as int,
                    1,
                ),
                ..old(self)@
            }),
    {
        let n = self.visible_count();
        self.selected = list::cursor_down(self.selected, n);
    }

    fn move_up(&mut self)
        ensures
            final(self)@ == (NetworksModel {
                selected: list::moved_cursor(
                    old(self)@.selected,
                    old(self)@.visible().len() as int,
                    -1,
                ),
                ..old(self)@
            }),
    {
        let n = self.visible_count();
        self.selected = list::cursor_up(self.selected, n);
    }

    fn list_key(&mut self, key: KeyEvent) -> (r: NetworksAction)
        ensures
            (final(self)@, r@) == old(self)@.list_key(key),
    {
        match key.code {
            KeyCode::Down => self.move_down(),
            KeyCode::Up => self.move_up(),
            KeyCode::F(n) => {
                if n == 5 {
                    return NetworksAction::Refresh;
                }
            },
            KeyCode::Delete => self.delete_key(),
            KeyCode::Char(c) => {
                if c == 'j' {
                    self.move_down();
                } else if c == 'k' {
                    self.move_up();
                } else if c == 'r' {
                    return NetworksAction::Refresh;
                } else if c == 'a' {
                    self.show_builtin = !self.show_builtin;
                } else if c == '/' {
                    self.searching = true;
                    self.query = String::new();
                } else if c == 'o' {
                    self.cycle_sort();
                } else if c == 'O' {
                    self.sort_asc = !self.sort_asc;
                } else if c == 'i' {
                    match self.current_id_and_name() {
                        Some(p) => {
                            return NetworksAction::Inspect(p.0);
                        },
                        None => self.no_network(),
                    }
                } else if c == 'd' {
                    self.delete_key();
                }
            },
            _ => {},
        }
        NetworksAction::Nothing
    }

    /// A key is pressed. What needs the engine comes back as a request.
    pub fn on_key(&mut self, key: KeyEvent) -> (r: NetworksAction)
        ensures
            (final(self)@, r@) == old(self)@.on_key(key),
    {
        if self.popup.is_some() {
            return self.popup_key(key);
        }
        if self.searching {
            self.searching = list::search_key(&mut self.query, key);
            let n = self.visible_count();
            self.selected = list::clamp_cursor(self.selected, n);
            return NetworksAction::Nothing;
        }
        self.list_key(key)
    }

    /// Takes the list that a key asked for.
    pub fn on_refreshed(&mut self, rows: Vec<NetworkRow>, now: u64)
        ensures
            final(self)@ == old(self)@.refreshed(rows.deep_view(), now).say(
                "✅ networks refreshed"@,
                old(self)@.theme.ok,
            ),
    {
        self.refresh(rows, now);
        let ok = self.theme.ok;
        self.say("✅ networks refreshed", ok);
    }

    /// Takes what the inspection of a network wrote, or why it could not be run.
    pub fn on_inspected(&mut self, r: Result<CommandOutput, String>)
        ensures
            final(self)@ == (match r {
                Ok(out) => if out.success {
                    (NetworksModel {
                        popup: Some(PopupView::Inspect(out.all_text())),
                        ..old(self)@
                    })
                } else {
                    old(self)@.say(
                        "❌ inspect network: docker network inspect failed (code="@ + code_text(
                            out.code,
                        ) + "): "@ + out.all_text(),
                        old(self)@.theme.err,
                    )
                },
                Err(e) => old(self)@.say("❌ inspect network: "@ + e@, old(self)@.theme.err),
            }),
    {
        let err = self.theme.err;
        match r {
            Ok(out) => {
                let t = out.text();
                if out.success {
                    self.popup = Some(Popup::Inspect(t));
                } else {
                    let mut msg = text::cat3(
                        "❌ inspect network: docker network inspect failed (code=",
                        show_code(out.code).as_str(),
                        "): ",
                    );
                    msg.append(t.as_str());
                    self.say(msg.as_str(), err);
                }
            },
            Err(e) => {
                self.say(text::cat("❌ inspect network: ", e.as_str()).as_str(), err);
            },
        }
    }

    /// Takes what the removal of a network wrote. Returns whether the list has to be read again.
    pub fn on_deleted(&mut self, name: &str, out: CommandOutput) -> (again: bool)
        ensures
            again == out.success,
            final(self)@ == (if out.success {
                old(self)@.say("🗑 removed: "@ + name@, old(self)@.theme.ok)
            } else {
                old(self)@.say(
                    "❌ network removal failed (code="@ + code_text(out.code) + "): "@
                        + out.all_text(),
                    old(self)@.theme.err,
                )
            }),
    {
        if out.success {
            let ok = self.theme.ok;
            self.say(text::cat("🗑 removed: ", name).as_str(), ok);
            true
        } else {
            let err = self.theme.err;
            let mut msg = text::cat3(
                "❌ network removal failed (code=",
                show_code(out.code).as_str(),
                "): ",
            );
            msg.append(out.text().as_str());
            self.say(msg.as_str(), err);
            false
        }
    }
}

/// The short id of a network.
pub fn short_id(nw: &NetworkRow) -> (r: String)
    ensures
        r@ == middle_cut(nw@.id, 18),
{
    truncate_middle(nw.id.as_str(), 18)
}

} // verus!
