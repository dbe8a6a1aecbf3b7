//! The list of images.

use crate::containers::util::{middle_cut, truncate_middle};
use crate::key::{KeyCode, KeyEvent};
use crate::list;
use crate::order::{arrange, arranged, positions, SortValue, SortValueView};
use crate::pull::{PullEvent, PullEventView, PullModel, PullPopup};
use crate::text;
use crate::theme::{note_view, Color, Note, Theme};
use crate::units;
use vstd::hash_set::StringHashSet;
use vstd::prelude::*;

verus! {

pub struct ImageSummary {
    pub id: String,
    pub repo_tags: Vec<String>,
    pub size: i64,
    pub created: i64,
}

#[verifier::ext_equal]
pub struct ImageModel {
    pub id: Seq<char>,
    pub repo_tags: Seq<Seq<char>>,
    pub size: i64,
    pub created: i64,
}

impl View for ImageSummary {
    type V = ImageModel;

    open spec fn view(&self) -> ImageModel {
        ImageModel {
            id: self.id@,
            repo_tags: self.repo_tags.deep_view(),
            size: self.size,
            created: self.created,
        }
    }
}

impl DeepView for ImageSummary {
    type V = ImageModel;

    open spec fn deep_view(&self) -> ImageModel {
        self@
    }
}

#[derive(Clone, Copy, Debug, PartialEq, Eq, Structural)]
pub enum SortKey {
    Repo,
    Size,
    Created,
}

/// A tag of an image that has none.
pub open spec fn is_untagged(t: Seq<char>) -> bool {
    text::begins(t, "<none>"@)
}

impl ImageModel {
    /// The first tag, cut to the width of its column.
    pub open spec fn name(self) -> Seq<char> {
        if self.repo_tags.len() > 0 {
            middle_cut(self.repo_tags[0], 42)
        } else {
            "<none>:<none>"@
        }
    }

    /// An image that no tag names.
    pub open spec fn dangling(self) -> bool {
        forall|i: int| 0 <= i < self.repo_tags.len() ==> is_untagged(#[trigger] self.repo_tags[i])
    }

    /// All words are found in the tags or in the id.
    pub open spec fn matches(self, tokens: Seq<Seq<char>>, dangling_only: bool) -> bool {
        &&& dangling_only ==> self.dangling()
        &&& words_found(
            text::lowercase(text::joined(self.repo_tags, " "@)),
            text::lowercase(self.id),
            tokens,
        )
    }

    pub open spec fn sort_value(self, key: SortKey) -> SortValueView {
        match key {
            SortKey::Repo => SortValueView::Text(text::lowercase(self.name())),
            SortKey::Size => SortValueView::Num(self.size),
            SortKey::Created => SortValueView::Num(self.created),
        }
    }

    /// The first tag by which the image can be pulled.
    pub open spec fn pullable(self) -> Option<Seq<char>> {
        first_pullable(self.repo_tags)
    }
}

pub open spec fn first_pullable(l: Seq<Seq<char>>) -> Option<Seq<char>>
    decreases l.len(),
{
    if l.len() == 0 {
        None
    } else if l[0].len() > 0 && !is_untagged(l[0]) {
        Some(l[0])
    } else {
        first_pullable(l.drop_first())
    }
}

pub open spec fn words_found(name: Seq<char>, id: Seq<char>, tokens: Seq<Seq<char>>) -> bool {
    forall|i: int|
        0 <= i < tokens.len() ==> text::holds(name, #[trigger] tokens[i]) || text::holds(
            id,
            tokens[i],
        )
}

/// Are all words found in one of two texts?
pub fn all_words_found(name: &str, id: &str, tokens: &Vec<String>) -> (r: bool)
    ensures
        r == words_found(name@, id@, tokens.deep_view()),
{
    let ghost tv = tokens.deep_view();
    let mut i: usize = 0;
    while i < tokens.len()
        invariant
            i <= tokens@.len(),
            tv == tokens.deep_view(),
            forall|k: int|
                0 <= k < i ==> text::holds(name@, #[trigger] tv[k]) || text::holds(id@, tv[k]),
        decreases tokens@.len() - i,
    {
        assert(tv[i as int] == tokens@[i as int]@);
        if !text::contains(name, tokens[i].as_str()) && !text::contains(id, tokens[i].as_str()) {
            return false;
        }
        i += 1;
    }
    true
}

pub fn image_name(img: &ImageSummary) -> (r: String)
    ensures
        r@ == img@.name(),
{
    if img.repo_tags.len() > 0 {
        assert(img@.repo_tags[0] == img.repo_tags@[0]@);
        truncate_middle(img.repo_tags[0].as_str(), 42)
    } else {
        "<none>:<none>".to_owned()
    }
}

/// The tag by which an image can be pulled.
pub fn pullable_ref(img: &ImageSummary) -> (r: Option<String>)
    ensures
        r.deep_view() == img@.pullable(),
{
    let ghost l = img@.repo_tags;
    let mut i: usize = 0;
    assert(l.skip(0) == l);
    while i < img.repo_tags.len()
        invariant
            i <= img.repo_tags@.len(),
            l == img.repo_tags.deep_view(),
            first_pullable(l.skip(i as int)) == first_pullable(l),
        decreases img.repo_tags@.len() - i,
    {
        assert(l[i as int] == img.repo_tags@[i as int]@);
        assert(l.skip(i as int).drop_first() == l.skip(i + 1));
        let t = img.repo_tags[i].as_str();
        if !t.is_empty() && !text::starts_with(t, "<none>") {
            return Some(img.repo_tags[i].clone());
        }
        i += 1;
    }
    None
}

fn is_dangling(img: &ImageSummary) -> (r: bool)
    ensures
        r == img@.dangling(),
{
    let ghost l = img@.repo_tags;
    let mut i: usize = 0;
    while i < img.repo_tags.len()
        invariant
            i <= img.repo_tags@.len(),
            l == img.repo_tags.deep_view(),
            forall|k: int| 0 <= k < i ==> is_untagged(#[trigger] l[k]),
        decreases img.repo_tags@.len() - i,
    {
        assert(l[i as int] == img.repo_tags@[i as int]@);
        if !text::starts_with(img.repo_tags[i].as_str(), "<none>") {
            assert(!is_untagged(img@.repo_tags[i as int]));
            return false;
        }
        i += 1;
    }
    true
}

/// Does an image meet a query?
pub fn match_visible(img: &ImageSummary, tokens: &Vec<String>, dangling_only: bool) -> (r: bool)
    ensures
        r == img@.matches(tokens.deep_view(), dangling_only),
{
    if dangling_only && !is_dangling(img) {
        return false;
    }
    let name = text::lower(text::join(&img.repo_tags, " ").as_str());
    let id = text::lower(img.id.as_str());
    all_words_found(name.as_str(), id.as_str(), tokens)
}

pub fn key_repo(img: &ImageSummary) -> (r: String)
    ensures
        r@ == text::lowercase(img@.name()),
{
    text::lower(image_name(img).as_str())
}

fn sort_value(img: &ImageSummary, key: SortKey) -> (r: SortValue)
    ensures
        r@ == img@.sort_value(key),
{
    match key {
        SortKey::Repo => SortValue::Text(key_repo(img)),
        SortKey::Size => SortValue::Num(img.size),
        SortKey::Created => SortValue::Num(img.created),
    }
}

pub enum Popup {
    ConfirmDelete { id: String, name: String },
    Inspect(String),
}

#[verifier::ext_equal]
pub enum PopupView {
    ConfirmDelete { id: Seq<char>, name: Seq<char> },
    Inspect(Seq<char>),
}

impl View for Popup {
    type V = PopupView;

    open spec fn view(&self) -> PopupView {
        match self {
            Popup::ConfirmDelete { id, name } => PopupView::ConfirmDelete { id: id@, name: name@ },
            Popup::Inspect(t) => PopupView::Inspect(t@),
        }
    }
}

/// What a key asks of the owner of the list.
pub enum ImagesAction {
    Nothing,
    /// List the images again, and tell the user.
    Refresh,
    Inspect(String),
    Delete { id: String, name: String },
    /// Pull these images, and hand what the pull reports to the popup.
    Pull(Vec<String>),
    /// Give up the pull that runs.
    StopPull,
    /// Save the table of the list.
    Save,
}

#[verifier::ext_equal]
pub enum ImagesActionView {
    Nothing,
    Refresh,
    Inspect(Seq<char>),
    Delete { id: Seq<char>, name: Seq<char> },
    Pull(Seq<Seq<char>>),
    StopPull,
    Save,
}

impl View for ImagesAction {
    type V = ImagesActionView;

    open spec fn view(&self) -> ImagesActionView {
        match self {
            ImagesAction::Nothing => ImagesActionView::Nothing,
            ImagesAction::Refresh => ImagesActionView::Refresh,
            ImagesAction::Inspect(id) => ImagesActionView::Inspect(id@),
            ImagesAction::Delete { id, name } => ImagesActionView::Delete { id: id@, name: name@ },
            ImagesAction::Pull(l) => ImagesActionView::Pull(l.deep_view()),
            ImagesAction::StopPull => ImagesActionView::StopPull,
            ImagesAction::Save => ImagesActionView::Save,
        }
    }
}

pub struct ImagesView {
    pub theme: Theme,
    pub rows: Vec<ImageSummary>,
    pub selected: Option<usize>,
    pub last_note: Note,
    pub last_refresh: u64,
    pub tick: u64,
    pub searching: bool,
    pub query: String,
    pub dangling_only: bool,
    pub sort_key: SortKey,
    pub sort_asc: bool,
    pub selected_ids: StringHashSet,
    pub popup: Option<Popup>,
    pub pull: PullPopup,
}

#[verifier::ext_equal]
pub struct ImagesModel {
    pub theme: Theme,
    pub rows: Seq<ImageModel>,
    pub selected: Option<usize>,
    pub note: Option<(Seq<char>, Color)>,
    pub last_refresh: u64,
    pub tick: u64,
    pub searching: bool,
    pub query: Seq<char>,
    pub dangling_only: bool,
    pub sort_key: SortKey,
    pub sort_asc: bool,
    pub selected_ids: Set<Seq<char>>,
    pub popup: Option<PopupView>,
    pub pull: PullModel,
}

impl View for ImagesView {
    type V = ImagesModel;

    open spec fn view(&self) -> ImagesModel {
        ImagesModel {
            theme: self.theme,
            rows: self.rows.deep_view(),
            selected: self.selected,
            note: note_view(self.last_note),
            last_refresh: self.last_refresh,
            tick: self.tick,
            searching: self.searching,
            query: self.query@,
            dangling_only: self.dangling_only,
            sort_key: self.sort_key,
            sort_asc: self.sort_asc,
            selected_ids: self.selected_ids@,
            popup: match self.popup {
                Some(p) => Some(p@),
                None => None,
            },
            pull: self.pull@,
        }
    }
}

pub open spec fn next_sort(k: SortKey) -> SortKey {
    match k {
        SortKey::Repo => SortKey::Size,
        SortKey::Size => SortKey::Created,
        SortKey::Created => SortKey::Repo,
    }
}

/// Each key comes round again.
pub proof fn sort_keys_cycle(k: SortKey)
    ensures
        next_sort(next_sort(next_sort(k))) == k,
        next_sort(k) != k,
{
}

/// An image as a line of the saved table.
pub open spec fn saved_line(m: ImageModel, now: u64) -> Seq<char> {
    m.name() + "\t"@ + units::size_text(m.size) + "\t"@ + units::created_text(m.created, now)
        + "\t"@ + middle_cut(m.id, 20) + "\n"@
}

/// The pull popup after some messages.
pub open spec fn after_events(p: PullModel, evs: Seq<PullEventView>) -> PullModel
    decreases evs.len(),
{
    if evs.len() == 0 {
        p
    } else {
        after_events(p, evs.drop_last()).on_event(evs.last())
    }
}

pub open spec fn event_views(evs: Seq<PullEvent>) -> Seq<PullEventView> {
    Seq::new(evs.len(), |i: int| evs[i]@)
}

impl ImagesModel {
    pub open spec fn fresh(theme: Theme, now: u64) -> ImagesModel {
        ImagesModel {
            theme,
            rows: Seq::empty(),
            selected: None,
            note: None,
            last_refresh: now,
            tick: 0,
            searching: false,
            query: Seq::empty(),
            dangling_only: false,
            sort_key: SortKey::Repo,
            sort_asc: true,
            selected_ids: Set::empty(),
            popup: None,
            pull: PullModel::idle(),
        }
    }

    pub open spec fn keep(self) -> Seq<bool> {
        Seq::new(
            self.rows.len(),
            |i: int|
                self.rows[i].matches(list::lower_words(text::words(self.query)), self.dangling_only),
        )
    }

    pub open spec fn keys(self) -> Seq<SortValueView> {
        Seq::new(self.rows.len(), |i: int| self.rows[i].sort_value(self.sort_key))
    }

    /// The rows that are shown.
    pub open spec fn visible(self) -> Seq<int> {
        arranged(self.keep(), self.keys(), self.sort_asc)
    }

    /// The image under the cursor.
    pub open spec fn current(self) -> Option<ImageModel> {
        match self.selected {
            Some(i) => if i < self.visible().len() {
                Some(self.rows[self.visible()[i as int]])
            } else {
                None
            },
            None => None,
        }
    }

    pub open spec fn say(self, msg: Seq<char>, color: Color) -> ImagesModel {
        ImagesModel { note: Some((msg, color)), ..self }
    }

    pub open spec fn no_image(self) -> ImagesModel {
        self.say("⚠ no image selected"@, self.theme.warn)
    }

    pub open spec fn refreshed(self, rows: Seq<ImageModel>, now: u64) -> ImagesModel {
        let m = ImagesModel { rows, last_refresh: now, ..self };
        ImagesModel {
            selected: list::clamped_cursor(m.selected, m.visible().len() as int),
            ..m
        }
    }

    /// The tags of the marked ones of the first `n` rows.
    pub open spec fn marked_refs(self, n: int) -> Seq<Seq<char>>
        decreases n,
    {
        if n <= 0 {
            Seq::empty()
        } else {
            let before = self.marked_refs(n - 1);
            let m = self.rows[n - 1];
            match m.pullable() {
                Some(t) => if self.selected_ids.contains(m.id) {
                    before.push(t)
                } else {
                    before
                },
                None => before,
            }
        }
    }

    /// What is to be pulled: what is marked, or else the row under the cursor.
    pub open spec fn pull_targets(self) -> Seq<Seq<char>> {
        if self.selected_ids.is_empty() {
            match self.current() {
                Some(m) => match m.pullable() {
                    Some(t) => seq![t],
                    None => Seq::empty(),
                },
                None => Seq::empty(),
            }
        } else {
            self.marked_refs(self.rows.len() as int)
        }
    }

    pub open spec fn saved_lines(self, l: Seq<int>, now: u64) -> Seq<Seq<char>> {
        Seq::new(l.len(), |i: int| saved_line(self.rows[l[i]], now))
    }

    /// The list as a table of texts.
    pub open spec fn saved_text(self, now: u64) -> Seq<char> {
        text::joined(
            seq!["REPO:TAG\tSIZE\tCREATED\tID\n"@] + self.saved_lines(self.visible(), now),
            Seq::empty(),
        )
    }

    pub open spec fn pull_key(self, key: KeyEvent) -> (ImagesModel, ImagesActionView) {
        let p = self.pull.on_key(key);
        (
            ImagesModel { pull: p, ..self },
            if p.visible {
                ImagesActionView::Nothing
            } else {
                ImagesActionView::StopPull
            },
        )
    }

    pub open spec fn popup_key(self, p: PopupView, key: KeyEvent) -> (
        ImagesModel,
        ImagesActionView,
    ) {
        let closed = ImagesModel { popup: None, ..self };
        let none = ImagesActionView::Nothing;
        match p {
            PopupView::Inspect(_) => if list::closes(key) {
                (closed, none)
            } else {
                (self, none)
            },
            PopupView::ConfirmDelete { id, name } => if list::refuses(key) {
                (closed, none)
            } else if list::agrees(key) {
                (closed, ImagesActionView::Delete { id, name })
            } else {
                (self, none)
            },
        }
    }

    pub open spec fn search_key(self, key: KeyEvent) -> ImagesModel {
        let (open, query) = list::searched(self.query, key);
        let m = ImagesModel { searching: open, query, ..self };
        ImagesModel {
            selected: list::clamped_cursor(m.selected, m.visible().len() as int),
            ..m
        }
    }

    pub open spec fn start_pull(self) -> (ImagesModel, ImagesActionView) {
        let t = self.pull_targets();
        if t.len() == 0 {
            (
                self.say("⚠ nothing to pull (need a repo:tag)"@, self.theme.warn),
                ImagesActionView::Nothing,
            )
        } else {
            let title = if t.len() == 1 {
                "Pull "@ + t[0]
            } else {
                "Pull "@ + text::decimal(t.len()) + " images"@
            };
            (
                ImagesModel { pull: self.pull.started(title), ..self }.say(
                    "⏬ pulling…"@,
                    self.theme.ok,
                ),
                ImagesActionView::Pull(t),
            )
        }
    }

    pub open spec fn list_key(self, key: KeyEvent) -> (ImagesModel, ImagesActionView) {
        let none = ImagesActionView::Nothing;
        let n = self.visible().len() as int;
        let down = ImagesModel { selected: list::moved_cursor(self.selected, n, 1), ..self };
        let up = ImagesModel { selected: list::moved_cursor(self.selected, n, -1), ..self };
        let delete = match self.current() {
            Some(m) => ImagesModel {
                popup: Some(PopupView::ConfirmDelete { id: m.id, name: m.name() }),
                ..self
            },
            None => self.no_image(),
        };
        match key.code {
            KeyCode::Down => (down, none),
            KeyCode::Up => (up, none),
            KeyCode::F(5) => (self, ImagesActionView::Refresh),
            KeyCode::Delete => (delete, none),
            KeyCode::Char(c) => if c == 'j' {
                (down, none)
            } else if c == 'k' {
                (up, none)
            } else if c == 'r' {
                (self, ImagesActionView::Refresh)
            } else if c == 'a' {
                (ImagesModel { dangling_only: !self.dangling_only, ..self }, none)
            } else if c == '/' {
                (ImagesModel { searching: true, query: Seq::empty(), ..self }, none)
            } else if c == 'o' {
                (ImagesModel { sort_key: next_sort(self.sort_key), ..self }, none)
            } else if c == 'O' {
                (ImagesModel { sort_asc: !self.sort_asc, ..self }, none)
            } else if c == 'i' {
                match self.current() {
                    Some(m) => (self, ImagesActionView::Inspect(m.id)),
                    None => (self.no_image(), none),
                }
            } else if c == 'd' {
                (delete, none)
            } else if c == 'x' {
                match self.current() {
                    Some(m) => (
                        ImagesModel {
                            selected_ids: list::toggled(self.selected_ids, m.id),
                            ..self
                        },
                        none,
                    ),
                    None => (self.no_image(), none),
                }
            } else if c == 'C' {
                (ImagesModel { selected_ids: Set::empty(), ..self }, none)
            } else if c == 'p' {
                self.start_pull()
            } else if c == 'S' {
                (self, ImagesActionView::Save)
            } else {
                (self, none)
            },
            _ => (self, none),
        }
    }

    /// A key is pressed: it goes to the pull popup, to a popup, to the search line or to the list,
    /// whichever is open first.
    pub open spec fn on_key(self, key: KeyEvent) -> (ImagesModel, ImagesActionView) {
        if self.pull.visible {
            self.pull_key(key)
        } else {
            match self.popup {
                Some(p) => self.popup_key(p, key),
                None => if self.searching {
                    (self.search_key(key), ImagesActionView::Nothing)
                } else {
                    self.list_key(key)
                },
            }
        }
    }

    /// A tick, with what the pull has reported since the last one. The end of a pull is noted,
    /// once.
    pub open spec fn ticked(self, evs: Seq<PullEventView>) -> (ImagesModel, bool) {
        let (p, end) = after_events(self.pull, evs).take_finished();
        let m = ImagesModel { tick: self.tick.wrapping_add(1), pull: p, ..self };
        match end {
            Some(ok) => (
                if ok {
                    m.say("✅ pull complete"@, self.theme.ok)
                } else {
                    m.say("❌ pull finished with errors"@, self.theme.err)
                },
                true,
            ),
            None => (m, false),
        }
    }

    pub open spec fn has_modal(self) -> bool {
        self.popup is Some || self.pull.visible
    }

    pub open spec fn is_modal_open(self) -> bool {
        self.has_modal() || self.searching
    }
}

/// An image is deleted only after the question was asked and agreed to.
pub proof fn nothing_is_removed_unasked(m: ImagesModel, key: KeyEvent)
    ensures
        m.on_key(key).1 matches ImagesActionView::Delete { id, name } ==> {
            &&& list::agrees(key)
            &&& m.popup == Some(PopupView::ConfirmDelete { id, name })
        },
{
}

/// The rows that are shown are exactly those that meet the query, each once and in order.
pub proof fn shows_what_meets_the_query(m: ImagesModel)
    ensures
        crate::order::is_arranged(m.visible(), m.keys(), m.sort_asc),
        m.visible().no_duplicates(),
        forall|k: int| #[trigger]
            m.visible().contains(k) <==> 0 <= k < m.rows.len() && m.rows[k].matches(
                list::lower_words(text::words(m.query)),
                m.dangling_only,
            ),
{
    crate::order::arranged_is_sorted(m.keep(), m.keys(), m.sort_asc);
}

impl ImagesView {
    pub fn new(theme: Theme, now: u64) -> (r: ImagesView)
        ensures
            r@ == ImagesModel::fresh(theme, now),
    {
        ImagesView {
            theme,
            rows: Vec::new(),
            selected: None,
            last_note: None,
            last_refresh: now,
            tick: 0,
            searching: false,
            query: String::new(),
            dangling_only: false,
            sort_key: SortKey::Repo,
            sort_asc: true,
            selected_ids: StringHashSet::new(),
            popup: None,
            pull: PullPopup::new(),
        }
    }

    /// The rows that are shown: those that meet the query, sorted.
    pub fn visible_indices(&self) -> (r: Vec<usize>)
        ensures
            positions(r@) == self@.visible(),
            forall|i: int| 0 <= i < r@.len() ==> #[trigger] r@[i] < self.rows@.len(),
    {
        let tokens = list::query_words(self.query.as_str());
        let ghost m = self@;
        let mut keep: Vec<bool> = Vec::new();
        let mut keys: Vec<SortValue> = Vec::new();
        let mut i: usize = 0;
        assert(keys.deep_view() == m.keys().take(0));
        while i < self.rows.len()
            invariant
                i <= self.rows@.len(),
                m == self@,
                tokens.deep_view() == list::lower_words(text::words(m.query)),
                keep@ == m.keep().take(i as int),
                keys.deep_view() == m.keys().take(i as int),
            decreases self.rows@.len() - i,
        {
            assert(m.rows[i as int] == self.rows@[i as int]@);
            keep.push(match_visible(&self.rows[i], &tokens, self.dangling_only));
            let ghost before = keys.deep_view();
            let k = sort_value(&self.rows[i], self.sort_key);
            keys.push(k);
            assert(keys.deep_view() == before.push(k@));
            assert(m.keys().take(i + 1) == m.keys().take(i as int).push(m.keys()[i as int]));
            assert(m.keep().take(i + 1) == m.keep().take(i as int).push(m.keep()[i as int]));
            i += 1;
        }
        assert(m.keep().take(m.rows.len() as int) == m.keep());
        assert(m.keys().take(m.rows.len() as int) == m.keys());
        arrange(&keep, &keys, self.sort_asc)
    }

    fn visible_count(&self) -> (r: usize)
        ensures
            r == self@.visible().len(),
    {
        let v = self.visible_indices();
        assert(positions(v@).len() == v@.len());
        v.len()
    }

    /// Takes a fresh list of images.
    pub fn refresh(&mut self, rows: Vec<ImageSummary>, now: u64)
        ensures
            final(self)@ == old(self)@.refreshed(rows.deep_view(), now),
    {
        self.rows = rows;
        self.last_refresh = now;
        let n = self.visible_count();
        self.selected = list::clamp_cursor(self.selected, n);
    }

    pub fn has_modal(&self) -> (r: bool)
        ensures
            r == self@.has_modal(),
    {
        self.popup.is_some() || self.pull.visible
    }

    pub fn is_modal_open(&self) -> (r: bool)
        ensures
            r == self@.is_modal_open(),
    {
        self.has_modal() || self.searching
    }

    /// The row under the cursor.
    fn current_row(&self) -> (r: Option<usize>)
        ensures
            match r {
                Some(k) => k < self.rows@.len() && self@.current() == Some(self.rows@[k as int]@),
                None => self@.current() is None,
            },
    {
        match self.selected {
            Some(i) => {
                let vis = self.visible_indices();
                assert(positions(vis@).len() == vis@.len());
                if i < vis.len() {
                    assert(self@.visible()[i as int] == vis@[i as int]);
                    assert(self@.rows[vis@[i as int] as int] == self.rows@[vis@[i as int] as int]@);
                    Some(vis[i])
                } else {
                    None
                }
            },
            None => None,
        }
    }

    /// The id and the name of the image under the cursor.
    pub fn current_id_and_name(&self) -> (r: Option<(String, String)>)
        ensures
            r.deep_view() == (match self@.current() {
                Some(m) => Some((m.id, m.name())),
                None => None,
            }),
    {
        match self.current_row() {
            Some(k) => Some((self.rows[k].id.clone(), image_name(&self.rows[k]))),
            None => None,
        }
    }

    /// What is to be pulled: what is marked, or else the row under the cursor.
    pub fn pull_targets(&self) -> (r: Vec<String>)
        ensures
            r.deep_view() == self@.pull_targets(),
    {
        let mut out: Vec<String> = Vec::new();
        if self.selected_ids.is_empty() {
            match self.current_row() {
                Some(k) => {
                    match pullable_ref(&self.rows[k]) {
                        Some(t) => {
                            let ghost tv = t@;
                            text::push_text(&mut out, t);
                            assert(out.deep_view() == seq![tv]);
                        },
                        None => {},
                    }
                },
                None => {},
            }
            return out;
        }
        let ghost m = self@;
        let mut i: usize = 0;
        assert(out.deep_view() == m.marked_refs(0));
        while i < self.rows.len()
            invariant
                i <= self.rows@.len(),
                m == self@,
                out.deep_view() == m.marked_refs(i as int),
            decreases self.rows@.len() - i,
        {
            assert(m.rows[i as int] == self.rows@[i as int]@);
            if self.selected_ids.contains(self.rows[i].id.as_str()) {
                match pullable_ref(&self.rows[i]) {
                    Some(t) => text::push_text(&mut out, t),
                    None => {},
                }
            }
            i += 1;
        }
        out
    }

    fn say(&mut self, msg: &str, color: Color)
        ensures
            final(self)@ == old(self)@.say(msg@, color),
    {
        self.last_note = Some((msg.to_owned(), color));
    }

    fn no_image(&mut self)
        ensures
            final(self)@ == old(self)@.no_image(),
    {
        let warn = self.theme.warn;
        self.say("⚠ no image selected", warn);
    }

    /// The list as a table of texts. `now` is in seconds since 1970.
    pub fn visible_table(&self, now: u64) -> (r: String)
        ensures
            r@ == self@.saved_text(now),
    {
        let vis = self.visible_indices();
        let ghost m = self@;
        let ghost vv = m.visible();
        assert(vv.len() == vis@.len());
        let ghost lines = m.saved_lines(vv, now);
        let ghost start = seq!["REPO:TAG\tSIZE\tCREATED\tID\n"@];
        let mut out: Vec<String> = Vec::new();
        text::push_text(&mut out, "REPO:TAG\tSIZE\tCREATED\tID\n".to_owned());
        let mut i: usize = 0;
        assert(out.deep_view() == start + lines.take(0));
        while i < vis.len()
            invariant
                i <= vis@.len(),
                m == self@,
                vv == positions(vis@),
                lines == m.saved_lines(vv, now),
                forall|i: int| 0 <= i < vis@.len() ==> #[trigger] vis@[i] < self.rows@.len(),
                out.deep_view() == start + lines.take(i as int),
            decreases vis@.len() - i,
        {
            let k: usize = vis[i];
            assert(vv[i as int] == k);
            assert(m.rows[k as int] == self.rows@[k as int]@);
            let cells = image_cells(&self.rows[k], now);
            let mut s = text::cat3(cells.0.as_str(), "\t", cells.1.as_str());
            s.append("\t");
            s.append(cells.2.as_str());
            s.append("\t");
            s.append(cells.3.as_str());
            s.append("\n");
            text::push_text(&mut out, s);
            assert(lines.take(i + 1) == lines.take(i as int).push(lines[i as int]));
            assert(out.deep_view() == start + lines.take(i + 1));
            i += 1;
        }
        assert(lines.take(lines.len() as int) == lines);
        let none: String = String::new();
        text::join(&out, none.as_str())
    }

    fn popup_key(&mut self, key: KeyEvent) -> (r: ImagesAction)
        requires
            old(self).popup is Some,
        ensures
            (final(self)@, r@) == old(self)@.popup_key(old(self).popup->0@, key),
    {
        match self.popup.take() {
            Some(Popup::Inspect(t)) => {
                if !list::is_close(key) {
                    self.popup = Some(Popup::Inspect(t));
                }
                ImagesAction::Nothing
            },
            Some(Popup::ConfirmDelete { id, name }) => {
                if list::is_no(key) {
                    ImagesAction::Nothing
                } else if list::is_yes(key) {
                    ImagesAction::Delete { id, name }
                } else {
                    self.popup = Some(Popup::ConfirmDelete { id, name });
                    ImagesAction::Nothing
                }
            },
            None => ImagesAction::Nothing,
        }
    }

    fn start_pull(&mut self) -> (r: ImagesAction)
        ensures
            (final(self)@, r@) == old(self)@.start_pull(),
    {
        let t = self.pull_targets();
        assert(t.deep_view().len() == t@.len());
        if t.len() == 0 {
            let warn = self.theme.warn;
            self.say("⚠ nothing to pull (need a repo:tag)", warn);
            return ImagesAction::Nothing;
        }
        assert(t.deep_view()[0] == t@[0]@);
        let title = if t.len() == 1 {
            text::cat("Pull ", t[0].as_str())
        } else {
            text::cat3("Pull ", text::number(t.len() as u64).as_str(), " images")
        };
        self.pull.start(title);
        let ok = self.theme.ok;
        self.say("⏬ pulling…", ok);
        ImagesAction::Pull(t)
    }

    fn delete_current(&mut self)
        ensures
            final(self)@ == (match old(self)@.current() {
                Some(m) => (ImagesModel {
                    popup: Some(PopupView::ConfirmDelete { id: m.id, name: m.name() }),
                    ..old(self)@
                }),
                None => old(self)@.no_image(),
            }),
    {
        match self.current_id_and_name() {
            Some(p) => {
                self.popup = Some(Popup::ConfirmDelete { id: p.0, name: p.1 });
            },
            None => self.no_image(),
        }
    }

    /// The next key to sort by.
    pub fn cycle_sort(&mut self)
        ensures
            final(self)@ == (ImagesModel {
                sort_key: next_sort(old(self)@.sort_key),
                ..old(self)@
            }),
    {
        self.sort_key = match self.sort_key {
            SortKey::Repo => SortKey::Size,
            SortKey::Size => SortKey::Created,
            SortKey::Created => SortKey::Repo,
        };
    }

    fn move_down(&mut self)
        ensures
            final(self)@ == (ImagesModel {
                selected: list::moved_cursor(
                    old(self)@.selected,
                    old(self)@.visible().len() as int,
                    1,
                ),
                ..old(self)@
            }),
    {
        let n = self.visible_count();
        self.selected = list::cursor_down(self.selected, n);
    }

    fn move_up(&mut self)
        ensures
            final(self)@ == (ImagesModel {
                selected: list::moved_cursor(
                    old(self)@.selected,
                    old(self)@.visible().len() as int,
                    -1,
                ),
                ..old(self)@
            }),
    {
        let n = self.visible_count();
        self.selected = list::cursor_up(self.selected, n);
    }

    fn list_key(&mut self, key: KeyEvent) -> (r: ImagesAction)
        ensures
            (final(self)@, r@) == old(self)@.list_key(key),
    {
        match key.code {
            KeyCode::Down => self.move_down(),
            KeyCode::Up => self.move_up(),
            KeyCode::F(n) => {
                if n == 5 {
                    return ImagesAction::Refresh;
                }
            },
            KeyCode::Delete => self.delete_current(),
            KeyCode::Char(c) => {
                if c == 'j' {
                    self.move_down();
                } else if c == 'k' {
                    self.move_up();
                } else if c == 'r' {
                    return ImagesAction::Refresh;
                } else if c == 'a' {
                    self.dangling_only = !self.dangling_only;
                } else if c == '/' {
                    self.searching = true;
                    self.query = String::new();
                } else if c == 'o' {
                    self.cycle_sort();
                } else if c == 'O' {
                    self.sort_asc = !self.sort_asc;
                } else if c == 'i' {
                    match self.current_id_and_name() {
                        Some(p) => {
                            return ImagesAction::Inspect(p.0);
                        },
                        None => self.no_image(),
                    }
                } else if c == 'd' {
                    self.delete_current();
                } else if c == 'x' {
                    match self.current_id_and_name() {
                        Some(p) => list::toggle(&mut self.selected_ids, p.0.as_str()),
                        None => self.no_image(),
                    }
                } else if c == 'C' {
                    self.selected_ids = StringHashSet::new();
                } else if c == 'p' {
                    return self.start_pull();
                } else if c == 'S' {
                    return ImagesAction::Save;
                }
            },
            _ => {},
        }
        ImagesAction::Nothing
    }

    /// A key is pressed. What needs the engine or the disk comes back as a request.
    pub fn on_key(&mut self, key: KeyEvent) -> (r: ImagesAction)
        ensures
            (final(self)@, r@) == old(self)@.on_key(key),
    {
        if self.pull.visible {
            self.pull.on_key(key);
            return if self.pull.visible {
                ImagesAction::Nothing
            } else {
                ImagesAction::StopPull
            };
        }
        if self.popup.is_some() {
            return self.popup_key(key);
        }
        if self.searching {
            self.searching = list::search_key(&mut self.query, key);
            let n = self.visible_count();
            self.selected = list::clamp_cursor(self.selected, n);
            return ImagesAction::Nothing;
        }
        self.list_key(key)
    }

    /// A tick, with what the pull has reported since the last one. Returns whether a pull has
    /// finished, and the list has to be read again.
    pub fn on_tick(&mut self, events: Vec<PullEvent>) -> (r: bool)
        ensures
            (final(self)@, r) == old(self)@.ticked(event_views(events@)),
    {
        self.tick = self.tick.wrapping_add(1);
        let ghost m = self@;
        feed_events(&mut self.pull, events);
        match self.pull.take_finished() {
            Some(done) => {
                if done {
                    let ok = self.theme.ok;
                    self.say("✅ pull complete", ok);
                } else {
                    let err = self.theme.err;
                    self.say("❌ pull finished with errors", err);
                }
                true
            },
            None => false,
        }
    }

    /// Takes the list that a key asked for.
    pub fn on_refreshed(&mut self, rows: Vec<ImageSummary>, now: u64)
        ensures
            final(self)@ == old(self)@.refreshed(rows.deep_view(), now).say(
                "✅ images refreshed"@,
                old(self)@.theme.ok,
            ),
    {
        self.refresh(rows, now);
        let ok = self.theme.ok;
        self.say("✅ images refreshed", ok);
    }

    /// Takes the details that a key asked for.
    pub fn on_inspected(&mut self, r: Result<String, String>)
        ensures
            final(self)@ == (match r {
                Ok(t) => (ImagesModel { popup: Some(PopupView::Inspect(t@)), ..old(self)@ }),
                Err(e) => old(self)@.say("❌ inspect image: "@ + e@, old(self)@.theme.err),
            }),
    {
        match r {
            Ok(t) => {
                self.popup = Some(Popup::Inspect(t));
            },
            Err(e) => {
                let err = self.theme.err;
                self.say(text::cat("❌ inspect image: ", e.as_str()).as_str(), err);
            },
        }
    }

    /// Takes the outcome of a deletion. Returns whether the list has to be read again.
    pub fn on_deleted(&mut self, name: &str, r: Result<(), String>) -> (again: bool)
        ensures
            again == r is Ok,
            final(self)@ == (match r {
                Ok(_) => old(self)@.say("🗑 deleted: "@ + name@, old(self)@.theme.ok),
                Err(e) => old(self)@.say("❌ delete image: "@ + e@, old(self)@.theme.err),
            }),
    {
        match r {
            Ok(_) => {
                let ok = self.theme.ok;
                self.say(text::cat("🗑 deleted: ", name).as_str(), ok);
                true
            },
            Err(e) => {
                let err = self.theme.err;
                self.say(text::cat("❌ delete image: ", e.as_str()).as_str(), err);
                false
            },
        }
    }

    /// Takes the outcome of saving the list.
    pub fn on_saved(&mut self, r: Result<String, String>)
        ensures
            final(self)@ == (match r {
                Ok(path) => old(self)@.say("💾 images saved: "@ + path@, old(self)@.theme.ok),
                Err(e) => old(self)@.say("❌ save images: "@ + e@, old(self)@.theme.err),
            }),
    {
        match r {
            Ok(path) => {
                let ok = self.theme.ok;
                self.say(text::cat("💾 images saved: ", path.as_str()).as_str(), ok);
            },
            Err(e) => {
                let err = self.theme.err;
                self.say(text::cat("❌ save images: ", e.as_str()).as_str(), err);
            },
        }
    }
}

/// The cells of an image: its name, its size, when it was made and its id.
pub fn image_cells(img: &ImageSummary, now: u64) -> (r: (String, String, String, String))
    ensures
        r.0@ == img@.name(),
        r.1@ == units::size_text(img@.size),
        r.2@ == units::created_text(img@.created, now),
        r.3@ == middle_cut(img@.id, 20),
{
    (
        image_name(img),
        units::human_size(img.size),
        units::format_created_full(img.created, now),
        truncate_middle(img.id.as_str(), 20),
    )
}

/// Hands the popup what the pull has reported.
pub fn feed_events(pull: &mut PullPopup, events: Vec<PullEvent>)
    ensures
        final(pull)@ == after_events(old(pull)@, event_views(events@)),
{
    let ghost ev = event_views(events@);
    let ghost p = pull@;
    let mut rest = events;
    let ghost all = rest@;
    let n: usize = rest.len();
    let mut k: usize = 0;
    assert(after_events(p, ev.take(0)) == p);
    while k < n
        invariant
            k <= n,
            n == all.len(),
            ev == event_views(all),
            rest@ == all.skip(k as int),
            pull@ == after_events(p, ev.take(k as int)),
        decreases n - k,
    {
        assert(ev.take(k + 1).drop_last() == ev.take(k as int));
        let e = rest.remove(0);
        assert(rest@ == all.skip(k + 1));
        pull.on_event(e);
        k += 1;
    }
    assert(ev.take(ev.len() as int) == ev);
}

} // verus!
