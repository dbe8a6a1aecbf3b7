//! The list of volumes.

use crate::containers::util::{middle_cut, truncate_middle};
use crate::images::{after_events, event_views, feed_events};
use crate::key::{KeyCode, KeyEvent};
use crate::list;
use crate::order::{arrange, arranged, positions, SortValue, SortValueView};
use crate::pull::{PullEvent, PullEventView, PullModel, PullPopup};
use crate::text;
use crate::theme::{note_view, Color, Note, Theme};
use vstd::prelude::*;

verus! {

#[derive(Clone, Copy, Debug, PartialEq, Eq, Structural)]
pub enum VolumeScope {
    Empty,
    Local,
    Global,
}

pub struct Volume {
    pub name: String,
    pub driver: String,
    pub mountpoint: String,
    pub created_at: Option<String>,
    pub scope: Option<VolumeScope>,
}

#[verifier::ext_equal]
pub struct VolumeModel {
    pub name: Seq<char>,
    pub driver: Seq<char>,
    pub mountpoint: Seq<char>,
    pub created_at: Option<Seq<char>>,
    pub scope: Option<VolumeScope>,
}

impl View for Volume {
    type V = VolumeModel;

    open spec fn view(&self) -> VolumeModel {
        VolumeModel {
            name: self.name@,
            driver: self.driver@,
            mountpoint: self.mountpoint@,
            created_at: self.created_at.deep_view(),
            scope: self.scope,
        }
    }
}

impl DeepView for Volume {
    type V = VolumeModel;

    open spec fn deep_view(&self) -> VolumeModel {
        self@
    }
}

#[derive(Clone, Copy, Debug, PartialEq, Eq, Structural)]
pub enum SortKey {
    Name,
    Driver,
    Mountpoint,
    CreatedAt,
}

/// A query stands in one of three texts.
pub open spec fn found_in(
    name: Seq<char>,
    driver: Seq<char>,
    mountpoint: Seq<char>,
    q: Seq<char>,
) -> bool {
    text::holds(name, q) || text::holds(driver, q) || text::holds(mountpoint, q)
}

impl VolumeModel {
    /// The query, which is in lower case, is empty or found.
    pub open spec fn matches(self, q: Seq<char>) -> bool {
        q.len() == 0 || found_in(
            text::lowercase(self.name),
            text::lowercase(self.driver),
            text::lowercase(self.mountpoint),
            q,
        )
    }

    pub open spec fn sort_value(self, key: SortKey) -> SortValueView {
        match key {
            SortKey::Name => SortValueView::Text(self.name),
            SortKey::Driver => SortValueView::Text(self.driver),
            SortKey::Mountpoint => SortValueView::Text(self.mountpoint),
            SortKey::CreatedAt => SortValueView::Maybe(self.created_at),
        }
    }

    pub open spec fn scope_text(self) -> Seq<char> {
        match self.scope {
            Some(VolumeScope::Empty) => "EMPTY"@,
            Some(VolumeScope::Local) => "LOCAL"@,
            Some(VolumeScope::Global) => "GLOBAL"@,
            None => "N/A"@,
        }
    }
}

/// Is a query found in one of three texts?
pub fn is_found_in(name: &str, driver: &str, mountpoint: &str, q: &str) -> (r: bool)
    ensures
        r == found_in(name@, driver@, mountpoint@, q@),
{
    text::contains(name, q) || text::contains(driver, q) || text::contains(mountpoint, q)
}

/// Does a volume meet a query, which is in lower case?
pub fn match_visible(vol: &Volume, q: &str) -> (r: bool)
    ensures
        r == vol@.matches(q@),
{
    if q.is_empty() {
        return true;
    }
    is_found_in(
        text::lower(vol.name.as_str()).as_str(),
        text::lower(vol.driver.as_str()).as_str(),
        text::lower(vol.mountpoint.as_str()).as_str(),
        q,
    )
}

fn sort_value(vol: &Volume, key: SortKey) -> (r: SortValue)
    ensures
        r@ == vol@.sort_value(key),
{
    match key {
        SortKey::Name => SortValue::Text(vol.name.clone()),
        SortKey::Driver => SortValue::Text(vol.driver.clone()),
        SortKey::Mountpoint => SortValue::Text(vol.mountpoint.clone()),
        SortKey::CreatedAt => SortValue::Maybe(
            match &vol.created_at {
                Some(s) => Some(s.clone()),
                None => None,
            },
        ),
    }
}

/// The cells of a volume: its name, its driver, its mountpoint and its scope.
pub fn volume_cells(vol: &Volume) -> (r: (String, String, String, String))
    ensures
        r.0@ == middle_cut(vol@.name, 30),
        r.1@ == vol@.driver,
        r.2@ == middle_cut(vol@.mountpoint, 40),
        r.3@ == vol@.scope_text(),
{
    let scope = match vol.scope {
        Some(VolumeScope::Empty) => "EMPTY".to_owned(),
        Some(VolumeScope::Local) => "LOCAL".to_owned(),
        Some(VolumeScope::Global) => "GLOBAL".to_owned(),
        None => "N/A".to_owned(),
    };
    (
        truncate_middle(vol.name.as_str(), 30),
        vol.driver.clone(),
        truncate_middle(vol.mountpoint.as_str(), 40),
        scope,
    )
}

pub open spec fn next_sort(k: SortKey) -> SortKey {
    match k {
        SortKey::Name => SortKey::Driver,
        SortKey::Driver => SortKey::Mountpoint,
        SortKey::Mountpoint => SortKey::CreatedAt,
        SortKey::CreatedAt => SortKey::Name,
    }
}

/// Each key comes round again.
pub proof fn sort_keys_cycle(k: SortKey)
    ensures
        next_sort(next_sort(next_sort(next_sort(k)))) == k,
        next_sort(k) != k,
{
}

/* ---------------- the list ---------------- */

pub enum Popup {
    ConfirmDelete { name: String },
    ConfirmPrune,
    Inspect(String),
}

#[verifier::ext_equal]
pub enum PopupView {
    ConfirmDelete { name: Seq<char> },
    ConfirmPrune,
    Inspect(Seq<char>),
}

impl View for Popup {
    type V = PopupView;

    open spec fn view(&self) -> PopupView {
        match self {
            Popup::ConfirmDelete { name } => PopupView::ConfirmDelete { name: name@ },
            Popup::ConfirmPrune => PopupView::ConfirmPrune,
            Popup::Inspect(t) => PopupView::Inspect(t@),
        }
    }
}

/// What a key asks of the owner of the list.
pub enum VolumesAction {
    Nothing,
    /// List the volumes again, and tell the user.
    Refresh,
    Inspect(String),
    Delete(String),
    /// Remove the volumes that nothing uses, and hand what is reported to the popup.
    Prune,
    /// Give up the operation that runs.
    StopPull,
}

#[verifier::ext_equal]
pub enum VolumesActionView {
    Nothing,
    Refresh,
    Inspect(Seq<char>),
    Delete(Seq<char>),
    Prune,
    StopPull,
}

impl View for VolumesAction {
    type V = VolumesActionView;

    open spec fn view(&self) -> VolumesActionView {
        match self {
            VolumesAction::Nothing => VolumesActionView::Nothing,
            VolumesAction::Refresh => VolumesActionView::Refresh,
            VolumesAction::Inspect(n) => VolumesActionView::Inspect(n@),
            VolumesAction::Delete(n) => VolumesActionView::Delete(n@),
            VolumesAction::Prune => VolumesActionView::Prune,
            VolumesAction::StopPull => VolumesActionView::StopPull,
        }
    }
}

pub struct VolumesView {
    pub theme: Theme,
    pub rows: Vec<Volume>,
    pub selected: Option<usize>,
    pub last_note: Note,
    pub last_refresh: u64,
    pub tick: u64,
    pub searching: bool,
    pub query: String,
    pub sort_key: SortKey,
    pub sort_asc: bool,
    pub popup: Option<Popup>,
    pub pull: PullPopup,
}

#[verifier::ext_equal]
pub struct VolumesModel {
    pub theme: Theme,
    pub rows: Seq<VolumeModel>,
    pub selected: Option<usize>,
    pub note: Option<(Seq<char>, Color)>,
    pub last_refresh: u64,
    pub tick: u64,
    pub searching: bool,
    pub query: Seq<char>,
    pub sort_key: SortKey,
    pub sort_asc: bool,
    pub popup: Option<PopupView>,
    pub pull: PullModel,
}

impl View for VolumesView {
    type V = VolumesModel;

    open spec fn view(&self) -> VolumesModel {
        VolumesModel {
            theme: self.theme,
            rows: self.rows.deep_view(),
            selected: self.selected,
            note: note_view(self.last_note),
            last_refresh: self.last_refresh,
            tick: self.tick,
            searching: self.searching,
            query: self.query@,
            sort_key: self.sort_key,
            sort_asc: self.sort_asc,
            popup: match self.popup {
                Some(p) => Some(p@),
                None => None,
            },
            pull: self.pull@,
        }
    }
}

impl VolumesModel {
    pub open spec fn fresh(theme: Theme, now: u64) -> VolumesModel {
        VolumesModel {
            theme,
            rows: Seq::empty(),
            selected: None,
            note: None,
            last_refresh: now,
            tick: 0,
            searching: false,
            query: Seq::empty(),
            sort_key: SortKey::Name,
            sort_asc: true,
            popup: None,
            pull: PullModel::idle(),
        }
    }

    pub open spec fn keep(self) -> Seq<bool> {
        Seq::new(self.rows.len(), |i: int| self.rows[i].matches(text::lowercase(self.query)))
    }

    pub open spec fn keys(self) -> Seq<SortValueView> {
        Seq::new(self.rows.len(), |i: int| self.rows[i].sort_value(self.sort_key))
    }

    /// The rows that are shown.
    pub open spec fn visible(self) -> Seq<int> {
        arranged(self.keep(), self.keys(), self.sort_asc)
    }

    /// The volume under the cursor.
    pub open spec fn current(self) -> Option<VolumeModel> {
        match self.selected {
            Some(i) => if i < self.visible().len() {
                Some(self.rows[self.visible()[i as int]])
            } else {
                None
            },
            None => None,
        }
    }

    pub open spec fn say(self, msg: Seq<char>, color: Color) -> VolumesModel {
        VolumesModel { note: Some((msg, color)), ..self }
    }

    pub open spec fn refreshed(self, rows: Seq<VolumeModel>, now: u64) -> VolumesModel {
        let m = VolumesModel { rows, last_refresh: now, ..self };
        VolumesModel {
            selected: list::held_cursor(m.selected, m.visible().len() as int),
            ..m
        }
    }

    /// The cursor one row down, but not below the last; where nothing is shown it stays.
    pub open spec fn down(self) -> VolumesModel {
        let n = self.visible().len() as int;
        if n == 0 {
            self
        } else {
            VolumesModel { selected: list::moved_cursor(self.selected, n, 1), ..self }
        }
    }

    /// The cursor one row up, but not above the first; where nothing is shown it stays.
    pub open spec fn up(self) -> VolumesModel {
        if self.visible().len() == 0 {
            self
        } else {
            VolumesModel {
                selected: Some(
                    match self.selected {
                        Some(i) => if i > 0 {
                            (i - 1) as usize
                        } else {
                            0
                        },
                        None => 0,
                    },
                ),
                ..self
            }
        }
    }

    pub open spec fn pull_key(self, key: KeyEvent) -> (VolumesModel, VolumesActionView) {
        let p = self.pull.on_key(key);
        (
            VolumesModel { pull: p, ..self },
            if p.visible {
                VolumesActionView::Nothing
            } else {
                VolumesActionView::StopPull
            },
        )
    }

    pub open spec fn popup_key(self, p: PopupView, key: KeyEvent) -> (
        VolumesModel,
        VolumesActionView,
    ) {
        let closed = VolumesModel { popup: None, ..self };
        let none = VolumesActionView::Nothing;
        match p {
            PopupView::Inspect(_) => if list::closes(key) {
                (closed, none)
            } else {
                (self, none)
            },
            PopupView::ConfirmDelete { name } => if list::refuses(key) {
                (closed, none)
            } else if list::agrees(key) {
                (closed, VolumesActionView::Delete(name))
            } else {
                (self, none)
            },
            PopupView::ConfirmPrune => if list::refuses(key) {
                (closed, none)
            } else if list::agrees(key) {
                (
                    VolumesModel { pull: self.pull.started("Prune volumes"@), ..closed },
                    VolumesActionView::Prune,
                )
            } else {
                (self, none)
            },
        }
    }

    pub open spec fn search_key(self, key: KeyEvent) -> VolumesModel {
        let (open, query) = list::searched(self.query, key);
        let m = VolumesModel { searching: open, query, ..self };
        VolumesModel {
            selected: list::clamped_cursor(m.selected, m.visible().len() as int),
            ..m
        }
    }

    pub open spec fn delete_key(self) -> VolumesModel {
        match self.current() {
            Some(m) => VolumesModel {
                popup: Some(PopupView::ConfirmDelete { name: m.name }),
                ..self
            },
            None => self,
        }
    }

    pub open spec fn list_key(self, key: KeyEvent) -> (VolumesModel, VolumesActionView) {
        let none = VolumesActionView::Nothing;
        match key.code {
            KeyCode::Down => (self.down(), none),
            KeyCode::Up => (self.up(), none),
            KeyCode::F(5) => (self, VolumesActionView::Refresh),
            KeyCode::Delete => (self.delete_key(), none),
            KeyCode::Char(c) => if c == 'j' {
                (self.down(), none)
            } else if c == 'k' {
                (self.up(), none)
            } else if c == 'r' {
                (self, VolumesActionView::Refresh)
            } else if c == '/' {
                (VolumesModel { searching: true, query: Seq::empty(), ..self }, none)
            } else if c == 'o' {
                (VolumesModel { sort_key: next_sort(self.sort_key), ..self }, none)
            } else if c == 'O' {
                (VolumesModel { sort_asc: !self.sort_asc, ..self }, none)
            } else if c == 'i' {
                match self.current() {
                    Some(m) => (self, VolumesActionView::Inspect(m.name)),
                    None => (self, none),
                }
            } else if c == 'd' {
                (self.delete_key(), none)
            } else if c == 'X' {
                (VolumesModel { popup: Some(PopupView::ConfirmPrune), ..self }, none)
            } else {
                (self, none)
            },
            _ => (self, none),
        }
    }

    /// A key is pressed: it goes to the progress popup, to a popup, to the search line or to the
    /// list, whichever is open first.
    pub open spec fn on_key(self, key: KeyEvent) -> (VolumesModel, VolumesActionView) {
        if self.pull.visible {
            self.pull_key(key)
        } else {
            match self.popup {
                Some(p) => self.popup_key(p, key),
                None => if self.searching {
                    (self.search_key(key), VolumesActionView::Nothing)
                } else {
                    self.list_key(key)
                },
            }
        }
    }

    /// A tick, with what the operation has reported since the last one. Its end is noted, once.
    pub open spec fn ticked(self, evs: Seq<PullEventView>) -> (VolumesModel, bool) {
        let (p, end) = after_events(self.pull, evs).take_finished();
        let m = VolumesModel { tick: self.tick.wrapping_add(1), pull: p, ..self };
        match end {
            Some(ok) => (
                if ok {
                    m.say("✅ done"@, self.theme.ok)
                } else {
                    m.say("❌ operation failed"@, self.theme.err)
                },
                true,
            ),
            None => (m, false),
        }
    }

    pub open spec fn is_modal_open(self) -> bool {
        self.popup is Some || self.searching || self.pull.visible
    }
}

/// Nothing is deleted or pruned but after the question was asked and agreed to.
pub proof fn nothing_is_removed_unasked(m: VolumesModel, key: KeyEvent)
    ensures
        m.on_key(key).1 is Delete || m.on_key(key).1 is Prune ==> list::agrees(key) && m.popup is Some,
        m.on_key(key).1 matches VolumesActionView::Delete(n) ==> m.popup == Some(
            PopupView::ConfirmDelete { name: n },
        ),
        m.on_key(key).1 is Prune ==> m.popup == Some(PopupView::ConfirmPrune),
{
}

/// The rows that are shown are exactly those that meet the query, each once and in order.
pub proof fn shows_what_meets_the_query(m: VolumesModel)
    ensures
        crate::order::is_arranged(m.visible(), m.keys(), m.sort_asc),
        m.visible().no_duplicates(),
        forall|k: int| #[trigger]
            m.visible().contains(k) <==> 0 <= k < m.rows.len() && m.rows[k].matches(
                text::lowercase(m.query),
            ),
{
    crate::order::arranged_is_sorted(m.keep(), m.keys(), m.sort_asc);
}

impl VolumesView {
    pub fn new(theme: Theme, now: u64) -> (r: VolumesView)
        ensures
            r@ == VolumesModel::fresh(theme, now),
    {
        VolumesView {
            theme,
            rows: Vec::new(),
            selected: None,
            last_note: None,
            last_refresh: now,
            tick: 0,
            searching: false,
            query: String::new(),
            sort_key: SortKey::Name,
            sort_asc: true,
            popup: None,
            pull: PullPopup::new(),
        }
    }

    pub fn is_modal_open(&self) -> (r: bool)
        ensures
            r == self@.is_modal_open(),
    {
        self.popup.is_some() || self.searching || self.pull.visible
    }

    pub fn has_modal(&self) -> (r: bool)
        ensures
            r == self@.is_modal_open(),
    {
        self.is_modal_open()
    }

    /// The rows that are shown: those that meet the query, sorted.
    pub fn visible_indices(&self) -> (r: Vec<usize>)
        ensures
            positions(r@) == self@.visible(),
            forall|i: int| 0 <= i < r@.len() ==> #[trigger] r@[i] < self.rows@.len(),
    {
        let q = text::lower(self.query.as_str());
        let ghost m = self@;
        let mut keep: Vec<bool> = Vec::new();
        let mut keys: Vec<SortValue> = Vec::new();
        let mut i: usize = 0;
        assert(keys.deep_view() == m.keys().take(0));
        while i < self.rows.len()
            invariant
                i <= self.rows@.len(),
                m == self@,
                q@ == text::lowercase(m.query),
                keep@ == m.keep().take(i as int),
                keys.deep_view() == m.keys().take(i as int),
            decreases self.rows@.len() - i,
        {
            assert(m.rows[i as int] == self.rows@[i as int]@);
            keep.push(match_visible(&self.rows[i], q.as_str()));
            let ghost before = keys.deep_view();
            let k = sort_value(&self.rows[i], self.sort_key);
            keys.push(k);
            assert(keys.deep_view() == before.push(k@));
            assert(m.keys().take(i + 1) == m.keys().take(i as int).push(m.keys()[i as int]));
            assert(m.keep().take(i + 1) == m.keep().take(i as int).push(m.keep()[i as int]));
            i += 1;
        }
        assert(m.keep().take(m.rows.len() as int) == m.keep());
        assert(m.keys().take(m.rows.len() as int) == m.keys());
        arrange(&keep, &keys, self.sort_asc)
    }

    fn visible_count(&self) -> (r: usize)
        ensures
            r == self@.visible().len(),
    {
        let v = self.visible_indices();
        assert(positions(v@).len() == v@.len());
        v.len()
    }

    /// Takes a fresh list of volumes.
    pub fn refresh(&mut self, rows: Vec<Volume>, now: u64)
        ensures
            final(self)@ == old(self)@.refreshed(rows.deep_view(), now),
    {
        self.rows = rows;
        self.last_refresh = now;
        let n = self.visible_count();
        self.selected = list::hold_cursor(self.selected, n);
    }

    /// The name of the volume under the cursor.
    pub fn current_name(&self) -> (r: Option<String>)
        ensures
            r.deep_view() == (match self@.current() {
                Some(m) => Some(m.name),
                None => None,
            }),
    {
        match self.selected {
            Some(i) => {
                let vis = self.visible_indices();
                assert(positions(vis@).len() == vis@.len());
                if i < vis.len() {
                    assert(self@.visible()[i as int] == vis@[i as int]);
                    let k: usize = vis[i];
                    assert(self@.rows[k as int] == self.rows@[k as int]@);
                    Some(self.rows[k].name.clone())
                } else {
                    None
                }
            },
            None => None,
        }
    }

    fn say(&mut self, msg: &str, color: Color)
        ensures
            final(self)@ == old(self)@.say(msg@, color),
    {
        self.last_note = Some((msg.to_owned(), color));
    }

    fn popup_key(&mut self, key: KeyEvent) -> (r: VolumesAction)
        requires
            old(self).popup is Some,
        ensures
            (final(self)@, r@) == old(self)@.popup_key(old(self).popup->0@, key),
    {
        match self.popup.take() {
            Some(Popup::Inspect(t)) => {
                if !list::is_close(key) {
                    self.popup = Some(Popup::Inspect(t));
                }
                VolumesAction::Nothing
            },
            Some(Popup::ConfirmDelete { name }) => {
                if list::is_no(key) {
                    VolumesAction::Nothing
                } else if list::is_yes(key) {
                    VolumesAction::Delete(name)
                } else {
                    self.popup = Some(Popup::ConfirmDelete { name });
                    VolumesAction::Nothing
                }
            },
            Some(Popup::ConfirmPrune) => {
                if list::is_no(key) {
                    VolumesAction::Nothing
                } else if list::is_yes(key) {
                    self.pull.start("Prune volumes".to_owned());
                    VolumesAction::Prune
                } else {
                    self.popup = Some(Popup::ConfirmPrune);
                    VolumesAction::Nothing
                }
            },
            None => VolumesAction::Nothing,
        }
    }

    fn delete_key(&mut self)
        ensures
            final(self)@ == old(self)@.delete_key(),
    {
        match self.current_name() {
            Some(name) => {
                self.popup = Some(Popup::ConfirmDelete { name });
            },
            None => {},
        }
    }

    /// The next key to sort by.
    pub fn cycle_sort(&mut self)
        ensures
            final(self)@ == (VolumesModel {
                sort_key: next_sort(old(self)@.sort_key),
                ..old(self)@
            }),
    {
        self.sort_key = match self.sort_key {
            SortKey::Name => SortKey::Driver,
            SortKey::Driver => SortKey::Mountpoint,
            SortKey::Mountpoint => SortKey::CreatedAt,
            SortKey::CreatedAt => SortKey::Name,
        };
    }

    fn move_down(&mut self)
        ensures
            final(self)@ == old(self)@.down(),
    {
        let n = self.visible_count();
        if n > 0 {
            self.selected = list::cursor_down(self.selected, n);
        }
    }

    fn move_up(&mut self)
        ensures
            final(self)@ == old(self)@.up(),
    {
        let n = self.visible_count();
        if n > 0 {
            let cur: usize = match self.selected {
                Some(i) => i,
                None => 0,
            };
            self.selected = Some(cur.saturating_sub(1));
        }
    }

    fn list_key(&mut self, key: KeyEvent) -> (r: VolumesAction)
        ensures
            (final(self)@, r@) == old(self)@.list_key(key),
    {
        match key.code {
            KeyCode::Down => self.move_down(),
            KeyCode::Up => self.move_up(),
            KeyCode::F(n) => {
                if n == 5 {
                    return VolumesAction::Refresh;
                }
            },
            KeyCode::Delete => self.delete_key(),
            KeyCode::Char(c) => {
                if c == 'j' {
                    self.move_down();
                } else if c == 'k' {
                    self.move_up();
                } else if c == 'r' {
                    return VolumesAction::Refresh;
                } else if c == '/' {
                    self.searching = true;
                    self.query = String::new();
                } else if c == 'o' {
                    self.cycle_sort();
                } else if c == 'O' {
                    self.sort_asc = !self.sort_asc;
                } else if c == 'i' {
                    match self.current_name() {
                        Some(n) => {
                            return VolumesAction::Inspect(n);
                        },
                        None => {},
                    }
                } else if c == 'd' {
                    self.delete_key();
                } else if c == 'X' {
                    self.popup = Some(Popup::ConfirmPrune);
                }
            },
            _ => {},
        }
        VolumesAction::Nothing
    }

    /// A key is pressed. What needs the engine comes back as a request.
    pub fn on_key(&mut self, key: KeyEvent) -> (r: VolumesAction)
        ensures
            (final(self)@, r@) == old(self)@.on_key(key),
    {
        if self.pull.visible {
            self.pull.on_key(key);
            return if self.pull.visible {
                VolumesAction::Nothing
            } else {
                VolumesAction::StopPull
            };
        }
        if self.popup.is_some() {
            return self.popup_key(key);
        }
        if self.searching {
            self.searching = list::search_key(&mut self.query, key);
            let n = self.visible_count();
            self.selected = list::clamp_cursor(self.selected, n);
            return VolumesAction::Nothing;
        }
        self.list_key(key)
    }

    /// A tick, with what the operation has reported since the last one. Returns whether it has
    /// finished, and the list has to be read again.
    pub fn on_tick(&mut self, events: Vec<PullEvent>) -> (r: bool)
        ensures
            (final(self)@, r) == old(self)@.ticked(event_views(events@)),
    {
        self.tick = self.tick.wrapping_add(1);
        feed_events(&mut self.pull, events);
        match self.pull.take_finished() {
            Some(done) => {
                if done {
                    let ok = self.theme.ok;
                    self.say("✅ done", ok);
                } else {
                    let err = self.theme.err;
                    self.say("❌ operation failed", err);
                }
                true
            },
            None => false,
        }
    }

    /// Takes the list that a key asked for.
    pub fn on_refreshed(&mut self, rows: Vec<Volume>, now: u64)
        ensures
            final(self)@ == old(self)@.refreshed(rows.deep_view(), now).say(
                "✅ volumes refreshed"@,
                old(self)@.theme.ok,
            ),
    {
        self.refresh(rows, now);
        let ok = self.theme.ok;
        self.say("✅ volumes refreshed", ok);
    }

    /// Takes the details that a key asked for.
    pub fn on_inspected(&mut self, r: Result<String, String>)
        ensures
            final(self)@ == (match r {
                Ok(t) => (VolumesModel { popup: Some(PopupView::Inspect(t@)), ..old(self)@ }),
                Err(e) => old(self)@.say("❌ inspect volume: "@ + e@, old(self)@.theme.err),
            }),
    {
        match r {
            Ok(t) => {
                self.popup = Some(Popup::Inspect(t));
            },
            Err(e) => {
                let err = self.theme.err;
                self.say(text::cat("❌ inspect volume: ", e.as_str()).as_str(), err);
            },
        }
    }

    /// Takes the outcome of a deletion. Returns whether the list has to be read again.
    pub fn on_deleted(&mut self, name: &str, r: Result<(), String>) -> (again: bool)
        ensures
            again == r is Ok,
            final(self)@ == (match r {
                Ok(_) => old(self)@.say("🗑 deleted: "@ + name@, old(self)@.theme.ok),
                Err(e) => old(self)@.say("❌ delete failed: "@ + e@, old(self)@.theme.err),
            }),
    {
        match r {
            Ok(_) => {
                let ok = self.theme.ok;
                self.say(text::cat("🗑 deleted: ", name).as_str(), ok);
                true
            },
            Err(e) => {
                let err = self.theme.err;
                self.say(text::cat("❌ delete failed: ", e.as_str()).as_str(), err);
                false
            },
        }
    }
}

} // verus!
