//! The dashboard: its tabs, the panes over them, and where a key goes.

use crate::compose::{
    ComposeAction, ComposeActionView, ComposeCommand, ComposeModel, ComposeView,
};
use crate::containers::view::{
    ContainersAction, ContainersActionView, ContainersModel, ContainersView, QueuedAction, QueuedView,
};
use crate::geometry::{may_split_into, three_rows, Direction, Rect, Slot};
use crate::images::{event_views, ImagesAction, ImagesActionView, ImagesModel, ImagesView};
use crate::key::{KeyCode, KeyEvent};
use crate::logs::{
    Follow, FollowView, LogsAction, LogsActionView, LogsModel, LogsPane, LINES_PER_TICK,
};
use crate::networks::{NetworksAction, NetworksActionView, NetworksModel, NetworksView};
use crate::num::smaller;
use crate::pull::{PullEvent, PullEventView};
use crate::stats::{StatsModel, StatsPane};
use crate::theme::{colored, note_view, Color, Note, Style, Theme};
use crate::volumes::{VolumesAction, VolumesActionView, VolumesModel, VolumesView};
use std::collections::VecDeque;
use vstd::prelude::*;

verus! {

#[derive(Clone, Copy, Debug, PartialEq, Eq, Structural)]
pub enum Tab {
    Containers,
    Images,
    Networks,
    Compose,
    Volumes,
}

/* ---------------- messages ---------------- */

/// A message that is shown for a while. Times are in milliseconds.
pub struct Toast {
    pub msg: String,
    pub color: Color,
    pub until: u64,
}

#[verifier::ext_equal]
pub struct ToastView {
    pub msg: Seq<char>,
    pub color: Color,
    pub until: u64,
}

impl View for Toast {
    type V = ToastView;

    open spec fn view(&self) -> ToastView {
        ToastView { msg: self.msg@, color: self.color, until: self.until }
    }
}

impl DeepView for Toast {
    type V = ToastView;

    open spec fn deep_view(&self) -> ToastView {
        self@
    }
}

pub struct Toasts {
    pub list: Vec<Toast>,
}

impl View for Toasts {
    type V = Seq<ToastView>;

    open spec fn view(&self) -> Seq<ToastView> {
        self.list.deep_view()
    }
}

/// The time at which a message that is shown from now on goes.
pub open spec fn end_of(now: u64, ttl: u64) -> u64 {
    (if now + ttl > u64::MAX {
        u64::MAX as int
    } else {
        now + ttl
    }) as u64
}

pub open spec fn toast(msg: Seq<char>, color: Color, ttl: u64, now: u64) -> ToastView {
    ToastView { msg, color, until: end_of(now, ttl) }
}

/// The messages that are still to be shown.
pub open spec fn pruned(l: Seq<ToastView>, now: u64) -> Seq<ToastView>
    decreases l.len(),
{
    if l.len() == 0 {
        l
    } else {
        let before = pruned(l.drop_last(), now);
        if now < l.last().until {
            before.push(l.last())
        } else {
            before
        }
    }
}

/// The message that is shown: the last of those that are still to be shown.
pub open spec fn shown_toast(l: Seq<ToastView>, now: u64) -> Option<(Seq<char>, Color)> {
    let p = pruned(l, now);
    if p.len() == 0 {
        None
    } else {
        Some((p.last().msg, p.last().color))
    }
}

/// What was said last is shown until its time is over, whatever else is still to be shown.
pub proof fn last_message_shows(
    l: Seq<ToastView>,
    msg: Seq<char>,
    color: Color,
    ttl: u64,
    then: u64,
    now: u64,
)
    requires
        then <= now < end_of(then, ttl),
    ensures
        shown_toast(l.push(toast(msg, color, ttl, then)), now) == Some((msg, color)),
{
    let all = l.push(toast(msg, color, ttl, then));
    assert(all.drop_last() == l);
}

/// A message whose time is over is not shown again.
pub proof fn old_messages_go(l: Seq<ToastView>, now: u64, later: u64)
    requires
        now <= later,
    ensures
        forall|i: int| 0 <= i < pruned(l, now).len() ==> now < (#[trigger] pruned(l, now)[i]).until,
        pruned(pruned(l, now), later) == pruned(l, later),
    decreases l.len(),
{
    if l.len() > 0 {
        old_messages_go(l.drop_last(), now, later);
        let before = pruned(l.drop_last(), now);
        assert(before.push(l.last()).drop_last() == before);
    }
}

impl Toasts {
    pub fn new() -> (r: Toasts)
        ensures
            r@ == Seq::<ToastView>::empty(),
    {
        let r = Toasts { list: Vec::new() };
        assert(r@ == Seq::<ToastView>::empty());
        r
    }

    /// Shows a message for a while.
    pub fn push(&mut self, msg: String, color: Color, ttl: u64, now: u64)
        ensures
            final(self)@ == old(self)@.push(toast(msg@, color, ttl, now)),
    {
        let ghost before = self@;
        let t = Toast { msg, color, until: now.saturating_add(ttl) };
        self.list.push(t);
        assert(self@ == before.push(t@));
    }

    /// Drops the messages whose time is over.
    pub fn prune(&mut self, now: u64)
        ensures
            final(self)@ == pruned(old(self)@, now),
    {
        let ghost l = self@;
        let mut all: Vec<Toast> = Vec::new();
        core::mem::swap(&mut all, &mut self.list);
        assert(all.deep_view() == l);
        let mut keep: Vec<Toast> = Vec::new();
        assert(keep.deep_view() == Seq::<ToastView>::empty());
        let n: usize = all.len();
        let mut i: usize = 0;
        assert(l.take(0) == Seq::<ToastView>::empty());
        while i < n
            invariant
                i <= n,
                n == all@.len(),
                l == all.deep_view(),
                keep.deep_view() == pruned(l.take(i as int), now),
            decreases n - i,
        {
            assert(l.take(i + 1).drop_last() == l.take(i as int));
            assert(l[i as int] == all@[i as int]@);
            if now < all[i].until {
                let ghost before = keep.deep_view();
                let t = Toast { msg: all[i].msg.clone(), color: all[i].color, until: all[i].until };
                keep.push(t);
                assert(keep.deep_view() == before.push(t@));
            }
            i += 1;
        }
        assert(l.take(n as int) == l);
        self.list = keep;
    }

    /// The message that is to be shown now.
    pub fn render(&mut self, now: u64) -> (r: Note)
        ensures
            final(self)@ == pruned(old(self)@, now),
            note_view(r) == shown_toast(old(self)@, now),
    {
        self.prune(now);
        let n: usize = self.list.len();
        assert(self@.len() == n);
        if n == 0 {
            None
        } else {
            assert(self@.last() == self.list@[n - 1]@);
            Some((self.list[n - 1].msg.clone(), self.list[n - 1].color))
        }
    }
}

/* ---------------- what is asked of the owner ---------------- */

pub enum UiAction {
    Nothing,
    Containers(ContainersAction),
    Images(ImagesAction),
    Networks(NetworksAction),
    Compose(ComposeAction),
    Volumes(VolumesAction),
    Logs(LogsAction),
    /// What becomes of the stream of log lines.
    LogStream(Follow),
    /// What becomes of the stream of samples, and whether the series that were gathered go.
    StatStream { reset: bool, stream: Follow },
}

#[verifier::ext_equal]
pub enum UiActionView {
    Nothing,
    Containers(ContainersActionView),
    Images(ImagesActionView),
    Networks(NetworksActionView),
    Compose(ComposeActionView),
    Volumes(VolumesActionView),
    Logs(LogsActionView),
    LogStream(FollowView),
    StatStream { reset: bool, stream: FollowView },
}

impl View for UiAction {
    type V = UiActionView;

    open spec fn view(&self) -> UiActionView {
        match self {
            UiAction::Nothing => UiActionView::Nothing,
            UiAction::Containers(a) => UiActionView::Containers(a@),
            UiAction::Images(a) => UiActionView::Images(a@),
            UiAction::Networks(a) => UiActionView::Networks(a@),
            UiAction::Compose(a) => UiActionView::Compose(a@),
            UiAction::Volumes(a) => UiActionView::Volumes(a@),
            UiAction::Logs(a) => UiActionView::Logs(a@),
            UiAction::LogStream(f) => UiActionView::LogStream(f@),
            UiAction::StatStream { reset, stream } => UiActionView::StatStream {
                reset: *reset,
                stream: stream@,
            },
        }
    }
}

/// What a tick asks for.
pub struct TickActions {
    /// An action on a container that has to be begun.
    pub begin: Option<QueuedAction>,
    pub refresh_images: bool,
    pub refresh_volumes: bool,
    /// The series of the statistics go.
    pub reset_stats: bool,
    pub attach_stats: Follow,
    pub start_stats: Follow,
}

#[verifier::ext_equal]
pub struct TickView {
    pub begin: Option<QueuedView>,
    pub refresh_images: bool,
    pub refresh_volumes: bool,
    pub reset_stats: bool,
    pub attach_stats: FollowView,
    pub start_stats: FollowView,
}

impl View for TickActions {
    type V = TickView;

    open spec fn view(&self) -> TickView {
        TickView {
            begin: match self.begin {
                Some(q) => Some(q@),
                None => None,
            },
            refresh_images: self.refresh_images,
            refresh_volumes: self.refresh_volumes,
            reset_stats: self.reset_stats,
            attach_stats: self.attach_stats@,
            start_stats: self.start_stats@,
        }
    }
}

/* ---------------- the dashboard ---------------- */

pub struct Ui {
    pub theme: Theme,
    pub tab: Tab,
    pub containers: ContainersView,
    pub images: ImagesView,
    pub networks: NetworksView,
    pub compose: ComposeView,
    pub volumes: VolumesView,
    pub toasts: Toasts,
    pub logs: LogsPane,
    pub stats: StatsPane,
}

#[verifier::ext_equal]
pub struct UiModel {
    pub theme: Theme,
    pub tab: Tab,
    pub containers: ContainersModel,
    pub images: ImagesModel,
    pub networks: NetworksModel,
    pub compose: ComposeModel,
    pub volumes: VolumesModel,
    pub toasts: Seq<ToastView>,
    pub logs: LogsModel,
    pub stats: StatsModel,
}

impl View for Ui {
    type V = UiModel;

    open spec fn view(&self) -> UiModel {
        UiModel {
            theme: self.theme,
            tab: self.tab,
            containers: self.containers@,
            images: self.images@,
            networks: self.networks@,
            compose: self.compose@,
            volumes: self.volumes@,
            toasts: self.toasts@,
            logs: self.logs@,
            stats: self.stats@,
        }
    }
}

pub open spec fn next_of(t: Tab) -> Tab {
    match t {
        Tab::Containers => Tab::Images,
        Tab::Images => Tab::Networks,
        Tab::Networks => Tab::Compose,
        Tab::Compose => Tab::Volumes,
        Tab::Volumes => Tab::Containers,
    }
}

pub open spec fn prev_of(t: Tab) -> Tab {
    match t {
        Tab::Containers => Tab::Volumes,
        Tab::Images => Tab::Containers,
        Tab::Networks => Tab::Images,
        Tab::Compose => Tab::Networks,
        Tab::Volumes => Tab::Compose,
    }
}

pub open spec fn with_note(
    l: Seq<ToastView>,
    note: Option<(Seq<char>, Color)>,
    now: u64,
) -> Seq<ToastView> {
    match note {
        Some((msg, color)) => l.push(toast(msg, color, 2000, now)),
        None => l,
    }
}

impl UiModel {
    pub open spec fn fresh(now: u64) -> UiModel {
        let theme = crate::theme::dark_theme();
        UiModel {
            theme,
            tab: Tab::Containers,
            containers: ContainersModel::fresh(theme, now),
            images: ImagesModel::fresh(theme, now),
            networks: NetworksModel::fresh(theme, now),
            compose: ComposeModel::fresh(theme, now),
            volumes: VolumesModel::fresh(theme, now),
            toasts: Seq::empty(),
            logs: LogsModel::fresh(),
            stats: StatsModel::fresh(),
        }
    }

    pub open spec fn selected_id(self) -> Option<Seq<char>> {
        match self.containers.current() {
            Some(p) => Some(p.target.id),
            None => None,
        }
    }

    /// Something lies over the tabs, or a search line is open.
    pub open spec fn is_modal_open(self) -> bool {
        self.logs.visible || self.stats.visible || self.containers.is_modal_open()
            || self.images.is_modal_open() || self.networks.is_modal_open()
            || self.compose.is_modal_open() || self.volumes.is_modal_open()
    }

    pub open spec fn to_containers(self, key: KeyEvent) -> (UiModel, UiActionView) {
        let (v, a) = self.containers.on_key(key);
        (UiModel { containers: v, ..self }, UiActionView::Containers(a))
    }

    pub open spec fn to_images(self, key: KeyEvent) -> (UiModel, UiActionView) {
        let (v, a) = self.images.on_key(key);
        (UiModel { images: v, ..self }, UiActionView::Images(a))
    }

    pub open spec fn to_networks(self, key: KeyEvent) -> (UiModel, UiActionView) {
        let (v, a) = self.networks.on_key(key);
        (UiModel { networks: v, ..self }, UiActionView::Networks(a))
    }

    pub open spec fn to_compose(self, key: KeyEvent) -> (UiModel, UiActionView) {
        let (v, a) = self.compose.on_key(key);
        (UiModel { compose: v, ..self }, UiActionView::Compose(a))
    }

    pub open spec fn to_volumes(self, key: KeyEvent) -> (UiModel, UiActionView) {
        let (v, a) = self.volumes.on_key(key);
        (UiModel { volumes: v, ..self }, UiActionView::Volumes(a))
    }

    /// While the log is shown it takes the keys; `l` and Esc hide it.
    pub open spec fn to_logs(self, key: KeyEvent) -> (UiModel, UiActionView) {
        match key.code {
            KeyCode::Char('l') | KeyCode::Esc => {
                let (v, f) = self.logs.toggled();
                (UiModel { logs: v, ..self }, UiActionView::LogStream(f))
            },
            _ => {
                let (v, a) = self.logs.on_key(key);
                (UiModel { logs: v, ..self }, UiActionView::Logs(a))
            },
        }
    }

    /// While the statistics are shown they take the keys; `t` and Esc hide them.
    pub open spec fn to_stats(self, key: KeyEvent) -> (UiModel, UiActionView) {
        match key.code {
            KeyCode::Char('t') | KeyCode::Esc => {
                let (v, f) = self.stats.shown(false);
                (UiModel { stats: v, ..self }, UiActionView::StatStream { reset: false, stream: f })
            },
            _ => (self, UiActionView::Nothing),
        }
    }

    pub open spec fn none_selected(self, now: u64) -> UiModel {
        UiModel {
            toasts: self.toasts.push(
                toast("⚠ no container selected"@, self.theme.warn, 2000, now),
            ),
            ..self
        }
    }

    pub open spec fn open_logs(self, now: u64) -> (UiModel, UiActionView) {
        match self.selected_id() {
            Some(id) => {
                let (v, f) = self.logs.attached(id).0.toggled().0.restarted();
                (UiModel { logs: v, ..self }, UiActionView::LogStream(f))
            },
            None => (self.none_selected(now), UiActionView::Nothing),
        }
    }

    pub open spec fn open_stats(self, now: u64) -> (UiModel, UiActionView) {
        match self.selected_id() {
            Some(id) => {
                let (a, reset, _) = self.stats.attached(id);
                let (v, f) = a.shown(true);
                (UiModel { stats: v, ..self }, UiActionView::StatStream { reset, stream: f })
            },
            None => (self.none_selected(now), UiActionView::Nothing),
        }
    }

    pub open spec fn to_tab(self, key: KeyEvent) -> (UiModel, UiActionView) {
        match self.tab {
            Tab::Containers => self.to_containers(key),
            Tab::Images => self.to_images(key),
            Tab::Networks => self.to_networks(key),
            Tab::Compose => self.to_compose(key),
            Tab::Volumes => self.to_volumes(key),
        }
    }

    pub open spec fn turned(self, tab: Tab) -> (UiModel, UiActionView) {
        (UiModel { tab, ..self }, UiActionView::Nothing)
    }

    /// Where a key goes: first to what lies over the tabs, then to the keys that hold
    /// everywhere, then to the tab. On the compose tab `l` is the tab's own, and shows the log
    /// of the project.
    pub open spec fn on_key(self, key: KeyEvent, now: u64) -> (UiModel, UiActionView) {
        if self.containers.is_modal_open() {
            self.to_containers(key)
        } else if self.images.is_modal_open() {
            self.to_images(key)
        } else if self.networks.is_modal_open() {
            self.to_networks(key)
        } else if self.compose.is_modal_open() {
            self.to_compose(key)
        } else if self.volumes.is_modal_open() {
            self.to_volumes(key)
        } else if self.logs.visible {
            self.to_logs(key)
        } else if self.stats.visible {
            self.to_stats(key)
        } else {
            match key.code {
                KeyCode::Char('l') => if self.tab == Tab::Compose {
                    self.to_compose(key)
                } else {
                    self.open_logs(now)
                },
                KeyCode::Char('t') => self.open_stats(now),
                KeyCode::Char('1') => self.turned(Tab::Containers),
                KeyCode::Char('2') => self.turned(Tab::Images),
                KeyCode::Char('3') => self.turned(Tab::Networks),
                KeyCode::Char('4') => self.turned(Tab::Compose),
                KeyCode::Char('5') => self.turned(Tab::Volumes),
                KeyCode::Tab => self.turned(next_of(self.tab)),
                KeyCode::BackTab => self.turned(prev_of(self.tab)),
                _ => self.to_tab(key),
            }
        }
    }

    /// A tick of the tabs and the panes.
    pub open spec fn ticked(
        self,
        image_events: Seq<PullEventView>,
        volume_events: Seq<PullEventView>,
        lines: Seq<Seq<char>>,
    ) -> (UiModel, TickView) {
        let (containers, begin) = self.containers.ticked();
        let (images, refresh_images) = self.images.ticked(image_events);
        let (volumes, refresh_volumes) = self.volumes.ticked(volume_events);
        let m = UiModel {
            containers,
            images,
            volumes,
            networks: NetworksModel { tick: self.networks.tick.wrapping_add(1), ..self.networks },
            compose: ComposeModel { tick: self.compose.tick.wrapping_add(1), ..self.compose },
            logs: self.logs.ticked(lines),
            ..self
        };
        let (attached, reset_stats, attach_stats) = match m.selected_id() {
            Some(id) if m.stats.visible => m.stats.attached(id),
            _ => (m.stats, false, FollowView::Keep),
        };
        let (stats, start_stats) = attached.ticked();
        (
            UiModel { stats, ..m },
            TickView {
                begin,
                refresh_images,
                refresh_volumes,
                reset_stats,
                attach_stats,
                start_stats,
            },
        )
    }

    /// The notes of the tabs and the log become messages.
    pub open spec fn noted(self, now: u64) -> UiModel {
        let a = with_note(self.toasts, self.containers.note, now);
        let b = with_note(a, self.logs.note, now);
        let c = with_note(b, self.images.note, now);
        let d = with_note(c, self.networks.note, now);
        let e = with_note(d, self.compose.note, now);
        UiModel {
            toasts: with_note(e, self.volumes.note, now),
            containers: ContainersModel { note: None, ..self.containers },
            logs: LogsModel { note: None, ..self.logs },
            images: ImagesModel { note: None, ..self.images },
            networks: NetworksModel { note: None, ..self.networks },
            compose: ComposeModel { note: None, ..self.compose },
            volumes: VolumesModel { note: None, ..self.volumes },
            ..self
        }
    }

    pub open spec fn help(self) -> Seq<char> {
        match self.tab {
            Tab::Containers => "q: quit • esc: back/close popup • 1–5/Tab: switch tabs • j/k: move • a: all/running • r/F5: refresh • Enter/Space: start/stop • R: restart • l: logs • t: stats"@,
            Tab::Images => "q: quit • esc: back/close popup • 1–5/Tab: switch tabs • j/k: move • /: search • a: all/dangling • o/O: sort • r/F5: refresh • i: inspect • d: delete • S: save visible list"@,
            Tab::Networks => "q: quit • esc: back/close popup • 1–5/Tab: switch tabs • j/k: move • /: search • a: all/user-defined • o/O: sort • r/F5: refresh • i: inspect • d: delete"@,
            Tab::Compose => "q: quit • esc: back/close popup • 1–5/Tab: switch tabs • j/k: move • /: search • r/F5: rescan • u: up -d • d: down • s: ps • l: logs"@,
            Tab::Volumes => "q: quit • esc: back/close popup • 1–5/Tab: switch tabs • j/k: move • /: search • o/O: sort • r/F5: refresh • i: inspect • d: delete • p: prune unused"@,
        }
    }

    /// The place of the tab among the tabs.
    pub open spec fn tab_index(self) -> int {
        match self.tab {
            Tab::Containers => 0,
            Tab::Images => 1,
            Tab::Networks => 2,
            Tab::Compose => 3,
            Tab::Volumes => 4,
        }
    }

    /// The line at the foot: a message, as long as there is one, or else the keys of the tab.
    pub open spec fn footer(self, now: u64) -> (Seq<char>, Style) {
        match shown_toast(self.toasts, now) {
            Some((msg, color)) => (
                msg,
                Style { fg: Some(Color::Black), bg: Some(color), bold: true, dim: false },
            ),
            None => (self.help(), colored(self.theme.fg)),
        }
    }
}

/* ---------------- laws ---------------- */

/// The tabs come round: one step forth and one back is no step, and five steps are none.
pub proof fn tabs_come_round(t: Tab)
    ensures
        prev_of(next_of(t)) == t,
        next_of(prev_of(t)) == t,
        next_of(next_of(next_of(next_of(next_of(t))))) == t,
        next_of(t) != t,
{
}

/// While nothing lies over the tabs, Tab turns to the next tab and Shift-Tab back, whichever tab
/// is shown.
pub proof fn tab_key_turns(m: UiModel, control: bool, now: u64)
    requires
        !m.is_modal_open(),
    ensures
        m.on_key(KeyEvent { code: KeyCode::Tab, control }, now).0.tab == next_of(m.tab),
        m.on_key(KeyEvent { code: KeyCode::BackTab, control }, now).0.tab == prev_of(m.tab),
{
}

/// While something lies over the tabs, or a search line is open, no key turns to another tab.
pub proof fn modal_holds_the_tab(m: UiModel, key: KeyEvent, now: u64)
    requires
        m.is_modal_open(),
    ensures
        m.on_key(key, now).0.tab == m.tab,
{
}

/// A key acts on one part of the dashboard at most: the lists of the other tabs stay as they
/// are.
pub proof fn key_acts_on_one_tab(m: UiModel, key: KeyEvent, now: u64)
    ensures
        ({
            let n = m.on_key(key, now).0;
            ||| n.images == m.images && n.networks == m.networks && n.compose == m.compose
                && n.volumes == m.volumes
            ||| n.containers == m.containers && n.networks == m.networks && n.compose == m.compose
                && n.volumes == m.volumes
            ||| n.containers == m.containers && n.images == m.images && n.compose == m.compose
                && n.volumes == m.volumes
            ||| n.containers == m.containers && n.images == m.images && n.networks == m.networks
                && n.volumes == m.volumes
            ||| n.containers == m.containers && n.images == m.images && n.networks == m.networks
                && n.compose == m.compose
        }),
{
}

/// On the compose tab, `l` asks for the log of the project under the cursor.
pub proof fn compose_log_is_reached(m: UiModel, control: bool, now: u64)
    requires
        !m.is_modal_open(),
        m.tab == Tab::Compose,
        m.compose.current() is Some,
    ensures
        m.on_key(KeyEvent { code: KeyCode::Char('l'), control }, now).1 == UiActionView::Compose(
            ComposeActionView::Run(ComposeCommand::Logs, m.compose.current()->0),
        ),
{
}

/// On the other tabs, the log that `l` opens is that of the container under the cursor, and `l`
/// or Esc close it again; closed, it reads nothing.
pub proof fn log_opens_and_closes(m: UiModel, close: KeyEvent, now: u64)
    requires
        !m.is_modal_open(),
        m.tab != Tab::Compose,
        m.selected_id() is Some,
        close.code == KeyCode::Char('l') || close.code == KeyCode::Esc,
    ensures
        ({
            let l = KeyEvent { code: KeyCode::Char('l'), control: false };
            let opened = m.on_key(l, now);
            let closed = opened.0.on_key(close, now);
            &&& opened.0.logs.visible && opened.0.logs.container_id == m.selected_id()
            &&& opened.1 == UiActionView::LogStream(FollowView::Start(m.selected_id()->0))
            &&& !closed.0.logs.visible && !closed.0.logs.following
            &&& closed.1 == UiActionView::LogStream(FollowView::Stop)
        }),
{
}

/// The statistics that `t` opens are those of the container under the cursor, and `t` or Esc
/// close them again; closed, they read nothing.
pub proof fn stats_open_and_close(m: UiModel, close: KeyEvent, now: u64)
    requires
        !m.is_modal_open(),
        m.selected_id() is Some,
        m.stats.streaming ==> m.stats.visible,
        close.code == KeyCode::Char('t') || close.code == KeyCode::Esc,
    ensures
        ({
            let t = KeyEvent { code: KeyCode::Char('t'), control: false };
            let opened = m.on_key(t, now);
            let closed = opened.0.on_key(close, now);
            &&& opened.0.stats.visible && opened.0.stats.container_id == m.selected_id()
            &&& opened.1 matches UiActionView::StatStream { stream, .. } && stream
                == FollowView::Start(m.selected_id()->0)
            &&& !closed.0.stats.visible && !closed.0.stats.streaming
        }),
{
}

/// Every note becomes a message once: said, it is gone, and nothing is said again.
pub proof fn notes_are_said_once(m: UiModel, now: u64, later: u64)
    ensures
        m.noted(now).noted(later).toasts == m.noted(now).toasts,
        m.noted(now).containers.note is None,
        m.noted(now).images.note is None,
        m.noted(now).networks.note is None,
        m.noted(now).compose.note is None,
        m.noted(now).volumes.note is None,
        m.noted(now).logs.note is None,
{
}

/* ---------------- the dashboard at work ---------------- */

fn push_note(toasts: &mut Toasts, note: &mut Note, now: u64)
    ensures
        final(toasts)@ == with_note(old(toasts)@, note_view(*old(note)), now),
        *final(note) is None,
{
    match note.take() {
        Some((msg, color)) => {
            toasts.push(msg, color, 2000, now);
        },
        None => {},
    }
}

impl Ui {
    /// A dashboard whose lists are still empty.
    pub fn new(now: u64) -> (r: Ui)
        ensures
            r@ == UiModel::fresh(now),
    {
        let theme = Theme::dark();
        Ui {
            theme,
            tab: Tab::Containers,
            containers: ContainersView::new(theme, now),
            images: ImagesView::new(theme, now),
            networks: NetworksView::new(theme, now),
            compose: ComposeView::new(theme, now),
            volumes: VolumesView::new(theme, now),
            toasts: Toasts::new(),
            logs: LogsPane::new(),
            stats: StatsPane::new(),
        }
    }

    /// Does something lie over the tabs?
    pub fn is_modal_open(&self) -> (r: bool)
        ensures
            r == self@.is_modal_open(),
    {
        self.logs.visible || self.stats.visible || self.containers.is_modal_open()
            || self.images.is_modal_open() || self.networks.is_modal_open()
            || self.compose.is_modal_open() || self.volumes.is_modal_open()
    }

    /// A tick of the tabs and the panes: reports of pulls come in, and lines of the log.
    pub fn on_tick(
        &mut self,
        image_events: Vec<PullEvent>,
        volume_events: Vec<PullEvent>,
        waiting: &mut VecDeque<String>,
    ) -> (r: TickActions)
        requires
            old(self)@.logs.valid(),
        ensures
            ({
                let w = old(waiting).deep_view();
                let n = smaller(w.len() as int, LINES_PER_TICK as int);
                &&& (final(self)@, r@) == old(self)@.ticked(
                    event_views(image_events@),
                    event_views(volume_events@),
                    w.take(n),
                )
                &&& final(waiting).deep_view() == w.skip(n)
            }),
            final(self)@.logs.valid(),
    {
        let begin = self.containers.on_tick();
        let refresh_images = self.images.on_tick(image_events);
        self.networks.on_tick();
        self.compose.on_tick();
        let refresh_volumes = self.volumes.on_tick(volume_events);
        let mut reset_stats = false;
        let mut attach_stats = Follow::Keep;
        if self.stats.visible {
            if let Some(id) = self.containers.selected_id() {
                let (reset, follow) = self.stats.attach(id.as_str());
                reset_stats = reset;
                attach_stats = follow;
            }
        }
        self.logs.on_tick(waiting);
        let start_stats = self.stats.on_tick();
        TickActions {
            begin,
            refresh_images,
            refresh_volumes,
            reset_stats,
            attach_stats,
            start_stats,
        }
    }

    /// Makes messages of the notes of the tabs and the log.
    pub fn collect_notes(&mut self, now: u64)
        ensures
            final(self)@ == old(self)@.noted(now),
    {
        push_note(&mut self.toasts, &mut self.containers.last_note, now);
        push_note(&mut self.toasts, &mut self.logs.last_note, now);
        push_note(&mut self.toasts, &mut self.images.last_note, now);
        push_note(&mut self.toasts, &mut self.networks.last_note, now);
        push_note(&mut self.toasts, &mut self.compose.last_note, now);
        push_note(&mut self.toasts, &mut self.volumes.last_note, now);
    }

    fn say_none_selected(&mut self, now: u64)
        ensures
            final(self)@ == old(self)@.none_selected(now),
    {
        self.toasts.push("⚠ no container selected".to_owned(), self.theme.warn, 2000, now);
    }

    fn open_logs(&mut self, now: u64) -> (r: UiAction)
        ensures
            (final(self)@, r@) == old(self)@.open_logs(now),
    {
        match self.containers.selected_id() {
            Some(id) => {
                let _ = self.logs.attach(id.as_str());
                let _ = self.logs.toggle();
                UiAction::LogStream(self.logs.restart_follow())
            },
            None => {
                self.say_none_selected(now);
                UiAction::Nothing
            },
        }
    }

    fn open_stats(&mut self, now: u64) -> (r: UiAction)
        ensures
            (final(self)@, r@) == old(self)@.open_stats(now),
    {
        match self.containers.selected_id() {
            Some(id) => {
                let (reset, _) = self.stats.attach(id.as_str());
                let stream = self.stats.set_visible(true);
                UiAction::StatStream { reset, stream }
            },
            None => {
                self.say_none_selected(now);
                UiAction::Nothing
            },
        }
    }

    fn tab_key(&mut self, key: KeyEvent) -> (r: UiAction)
        ensures
            (final(self)@, r@) == old(self)@.to_tab(key),
    {
        match self.tab {
            Tab::Containers => UiAction::Containers(self.containers.on_key(key)),
            Tab::Images => UiAction::Images(self.images.on_key(key)),
            Tab::Networks => UiAction::Networks(self.networks.on_key(key)),
            Tab::Compose => UiAction::Compose(self.compose.on_key(key)),
            Tab::Volumes => UiAction::Volumes(self.volumes.on_key(key)),
        }
    }

    /// A key was pressed.
    pub fn on_key(&mut self, key: KeyEvent, now: u64) -> (r: UiAction)
        ensures
            (final(self)@, r@) == old(self)@.on_key(key, now),
    {
        if self.containers.is_modal_open() {
            return UiAction::Containers(self.containers.on_key(key));
        }
        if self.images.is_modal_open() {
            return UiAction::Images(self.images.on_key(key));
        }
        if self.networks.has_modal() {
            return UiAction::Networks(self.networks.on_key(key));
        }
        if self.compose.has_modal() {
            return UiAction::Compose(self.compose.on_key(key));
        }
        if self.volumes.has_modal() {
            return UiAction::Volumes(self.volumes.on_key(key));
        }
        if self.logs.visible {
            return match key.code {
                KeyCode::Char('l') | KeyCode::Esc => UiAction::LogStream(self.logs.toggle()),
                _ => UiAction::Logs(self.logs.on_key(key)),
            };
        }
        if self.stats.visible {
            return match key.code {
                KeyCode::Char('t') | KeyCode::Esc => UiAction::StatStream {
                    reset: false,
                    stream: self.stats.set_visible(false),
                },
                _ => UiAction::Nothing,
            };
        }
        match key.code {
            KeyCode::Char('l') => {
                return match self.tab {
                    Tab::Compose => UiAction::Compose(self.compose.on_key(key)),
                    _ => self.open_logs(now),
                };
            },
            KeyCode::Char('t') => {
                return self.open_stats(now);
            },
            KeyCode::Char('1') => {
                self.tab = Tab::Containers;
            },
            KeyCode::Char('2') => {
                self.tab = Tab::Images;
            },
            KeyCode::Char('3') => {
                self.tab = Tab::Networks;
            },
            KeyCode::Char('4') => {
                self.tab = Tab::Compose;
            },
            KeyCode::Char('5') => {
                self.tab = Tab::Volumes;
            },
            KeyCode::Tab => {
                self.next_tab();
            },
            KeyCode::BackTab => {
                self.prev_tab();
            },
            _ => {
                return self.tab_key(key);
            },
        }
        UiAction::Nothing
    }

    pub fn next_tab(&mut self)
        ensures
            final(self)@ == (UiModel { tab: next_of(old(self)@.tab), ..old(self)@ }),
    {
        self.tab = match self.tab {
            Tab::Containers => Tab::Images,
            Tab::Images => Tab::Networks,
            Tab::Networks => Tab::Compose,
            Tab::Compose => Tab::Volumes,
            Tab::Volumes => Tab::Containers,
        };
    }

    pub fn prev_tab(&mut self)
        ensures
            final(self)@ == (UiModel { tab: prev_of(old(self)@.tab), ..old(self)@ }),
    {
        self.tab = match self.tab {
            Tab::Containers => Tab::Volumes,
            Tab::Images => Tab::Containers,
            Tab::Networks => Tab::Images,
            Tab::Compose => Tab::Networks,
            Tab::Volumes => Tab::Compose,
        };
    }

    /// The keys of the tab.
    pub fn footer_help_for_tab(&self) -> (r: String)
        ensures
            r@ == self@.help(),
    {
        match self.tab {
            Tab::Containers => "q: quit • esc: back/close popup • 1–5/Tab: switch tabs • j/k: move • a: all/running • r/F5: refresh • Enter/Space: start/stop • R: restart • l: logs • t: stats".to_owned(),
            Tab::Images => "q: quit • esc: back/close popup • 1–5/Tab: switch tabs • j/k: move • /: search • a: all/dangling • o/O: sort • r/F5: refresh • i: inspect • d: delete • S: save visible list".to_owned(),
            Tab::Networks => "q: quit • esc: back/close popup • 1–5/Tab: switch tabs • j/k: move • /: search • a: all/user-defined • o/O: sort • r/F5: refresh • i: inspect • d: delete".to_owned(),
            Tab::Compose => "q: quit • esc: back/close popup • 1–5/Tab: switch tabs • j/k: move • /: search • r/F5: rescan • u: up -d • d: down • s: ps • l: logs".to_owned(),
            Tab::Volumes => "q: quit • esc: back/close popup • 1–5/Tab: switch tabs • j/k: move • /: search • o/O: sort • r/F5: refresh • i: inspect • d: delete • p: prune unused".to_owned(),
        }
    }

    /// The place of the tab among the tabs.
    pub fn selected_index(&self) -> (r: usize)
        ensures
            r == self@.tab_index(),
    {
        match self.tab {
            Tab::Containers => 0,
            Tab::Images => 1,
            Tab::Networks => 2,
            Tab::Compose => 3,
            Tab::Volumes => 4,
        }
    }

    /// The line at the foot, and its style.
    pub fn footer(&mut self, now: u64) -> (r: (String, Style))
        ensures
            (r.0@, r.1) == old(self)@.footer(now),
            final(self)@ == (UiModel { toasts: pruned(old(self)@.toasts, now), ..old(self)@ }),
    {
        match self.toasts.render(now) {
            Some((msg, color)) => (
                msg,
                Style { fg: Some(Color::Black), bg: Some(color), bold: true, dim: false },
            ),
            None => (self.footer_help_for_tab(), Style::fg(self.theme.fg)),
        }
    }

    /// The areas of the tabs' titles, of the tab, and of the foot, which is higher while it
    /// shows a message.
    pub fn areas(&mut self, area: Rect, now: u64) -> (r: (Rect, Rect, Rect))
        ensures
            may_split_into(
                area,
                Direction::Rows,
                seq![
                    Slot::Length(3),
                    Slot::Min(1),
                    Slot::Length(
                        if shown_toast(old(self)@.toasts, now) is Some {
                            3
                        } else {
                            2
                        },
                    ),
                ],
                seq![r.0, r.1, r.2],
            ),
            final(self)@ == (UiModel { toasts: pruned(old(self)@.toasts, now), ..old(self)@ }),
    {
        let high: u16 = if self.toasts.render(now).is_some() {
            3
        } else {
            2
        };
        three_rows(area, Slot::Length(3), Slot::Min(1), Slot::Length(high))
    }
}

} // verus!
