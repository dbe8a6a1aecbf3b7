//! The rules of the main loop: from the start to the dashboard, and out again.

use crate::containers::view::PopupView;
use crate::key::{KeyCode, KeyEvent};
use crate::splash::{SplashEvent, SplashEventView};
use crate::text;
use crate::ui::{Ui, UiAction, UiModel};
use vstd::prelude::*;

verus! {

pub const TERMINAL_MIN_WIDTH: u16 = 70;

pub const TERMINAL_MIN_HEIGHT: u16 = 28;

/// The time between two ticks, in milliseconds.
pub const TICK_MS: u64 = 120;

/// What is on the screen.
#[derive(Clone, Copy, Debug, PartialEq, Eq, Structural)]
pub enum Route {
    Splash,
    Main,
}

pub open spec fn is_small(width: u16, height: u16) -> bool {
    height < 28 || width < 70
}

pub open spec fn small_text(width: u16, height: u16) -> Seq<char> {
    "Error: terminal size should be at least 70x28, current is "@ + text::decimal(width as nat)
        + "x"@ + text::decimal(height as nat)
}

/// What is said of a terminal that is too small; nothing of one that is large enough.
pub fn size_error(width: u16, height: u16) -> (r: Option<String>)
    ensures
        r.deep_view() == (if is_small(width, height) {
            Some(small_text(width, height))
        } else {
            None
        }),
{
    if height < TERMINAL_MIN_HEIGHT || width < TERMINAL_MIN_WIDTH {
        let w = text::number(width as u64);
        let h = text::number(height as u64);
        let start = text::cat(
            "Error: terminal size should be at least 70x28, current is ",
            w.as_str(),
        );
        Some(text::cat3(start.as_str(), "x", h.as_str()))
    } else {
        None
    }
}

/// Does a key end the program? `modal_open` says whether something lay over the dashboard when
/// the key was pressed.
pub open spec fn key_quits(route: Route, key: KeyEvent, modal_open: bool) -> bool {
    key.code == KeyCode::Char('q') && (route == Route::Splash || !modal_open)
}

/// Does a key end the program? `modal_open` says whether something lay over the dashboard when
/// the key was pressed.
pub fn quits(route: Route, key: KeyEvent, modal_open: bool) -> (r: bool)
    ensures
        r == key_quits(route, key, modal_open),
{
    match key.code {
        KeyCode::Char('q') => match route {
            Route::Splash => true,
            Route::Main => !modal_open,
        },
        _ => false,
    }
}

/// Only `q` ends the program, and on the dashboard only while nothing lies over it.
pub proof fn only_q_quits(route: Route, key: KeyEvent, modal_open: bool)
    ensures
        key_quits(route, key, modal_open) ==> key.code == KeyCode::Char('q'),
        key_quits(Route::Main, key, modal_open) ==> !modal_open,
        key.code == KeyCode::Char('q') ==> key_quits(Route::Splash, key, modal_open)
            && key_quits(Route::Main, key, false),
{
}

/// A key is pressed on the dashboard. Returns what it asks for, and whether it ends the program.
pub fn press(ui: &mut Ui, key: KeyEvent, now: u64) -> (r: (UiAction, bool))
    ensures
        (final(ui)@, r.0@) == old(ui)@.on_key(key, now),
        r.1 == key_quits(Route::Main, key, old(ui)@.is_modal_open()),
{
    let modal_open = ui.is_modal_open();
    let action = ui.on_key(key, now);
    (action, quits(Route::Main, key, modal_open))
}

/// No key ends the program while something lies over the dashboard. So a `q` that closes it, as
/// it closes an inspection of a container or a shell, does no more than that.
pub proof fn closing_does_not_quit(m: UiModel, key: KeyEvent, now: u64)
    requires
        m.is_modal_open(),
    ensures
        !key_quits(Route::Main, key, m.is_modal_open()),
        key.code == KeyCode::Char('q') && m.containers.shell is Some ==> m.on_key(
            key,
            now,
        ).0.containers.shell is None,
        key.code == KeyCode::Char('q') && m.containers.shell is None && (m.containers.popup matches Some(
            PopupView::Inspect(_),
        )) ==> m.on_key(key, now).0.containers.popup is None,
{
}

/// What is on the screen after a tick: the dashboard, once it is there and the splash screen
/// may go.
pub open spec fn route_after(route: Route, ui_there: bool, splash_ready: bool) -> Route {
    if ui_there && splash_ready {
        Route::Main
    } else {
        route
    }
}

pub fn next_route(route: Route, ui_there: bool, splash_ready: bool) -> (r: Route)
    ensures
        r == route_after(route, ui_there, splash_ready),
{
    if ui_there && splash_ready {
        Route::Main
    } else {
        route
    }
}

/// How long to wait for a key, so many milliseconds after the last tick.
pub fn poll_timeout(elapsed: u64) -> (r: u64)
    ensures
        r == (if elapsed < TICK_MS {
            TICK_MS - elapsed
        } else {
            0
        }),
{
    TICK_MS.saturating_sub(elapsed)
}

/// Is it time for a tick?
pub fn tick_is_due(elapsed: u64) -> (r: bool)
    ensures
        r == (elapsed >= TICK_MS),
{
    elapsed >= TICK_MS
}

/* ---------------- the start ---------------- */

/// How the start goes on.
pub enum InitEvent {
    Begun,
    Connected,
    ConnectFailed(String),
    Listed,
    ListFailed(String),
    Built,
    BuildFailed(String),
}

#[verifier::ext_equal]
pub enum InitEventView {
    Begun,
    Connected,
    ConnectFailed(Seq<char>),
    Listed,
    ListFailed(Seq<char>),
    Built,
    BuildFailed(Seq<char>),
}

impl View for InitEvent {
    type V = InitEventView;

    open spec fn view(&self) -> InitEventView {
        match self {
            InitEvent::Begun => InitEventView::Begun,
            InitEvent::Connected => InitEventView::Connected,
            InitEvent::ConnectFailed(e) => InitEventView::ConnectFailed(e@),
            InitEvent::Listed => InitEventView::Listed,
            InitEvent::ListFailed(e) => InitEventView::ListFailed(e@),
            InitEvent::Built => InitEventView::Built,
            InitEvent::BuildFailed(e) => InitEventView::BuildFailed(e@),
        }
    }
}

pub open spec fn step(permille: u32, label: Seq<char>) -> Seq<SplashEventView> {
    seq![SplashEventView::Step { permille, label }]
}

/// What the splash screen is told.
pub open spec fn told(ev: InitEventView) -> Seq<SplashEventView> {
    match ev {
        InitEventView::Begun => step(100, "Connect to Docker…"@),
        InitEventView::Connected => step(450, "Warm-up containers…"@),
        InitEventView::Listed => step(700, "Build UI state…"@),
        InitEventView::Built => step(950, "Final touches…"@).push(SplashEventView::Done),
        InitEventView::ConnectFailed(e) => seq![SplashEventView::Fail("docker connect: "@ + e)],
        InitEventView::ListFailed(e) => seq![SplashEventView::Fail("list: "@ + e)],
        InitEventView::BuildFailed(e) => seq![SplashEventView::Fail("ui: "@ + e)],
    }
}

fn one_step(permille: u32, label: &str) -> (r: Vec<SplashEvent>)
    ensures
        r.deep_view() == step(permille, label@),
{
    let mut r: Vec<SplashEvent> = Vec::new();
    r.push(SplashEvent::Step { permille, label: label.to_owned() });
    assert(r.deep_view() == step(permille, label@));
    r
}

fn failure(what: &str, e: &str) -> (r: Vec<SplashEvent>)
    ensures
        r.deep_view() == seq![SplashEventView::Fail(what@ + e@)],
{
    let mut r: Vec<SplashEvent> = Vec::new();
    r.push(SplashEvent::Fail(text::cat(what, e)));
    assert(r.deep_view() == seq![SplashEventView::Fail(what@ + e@)]);
    r
}

/// What the splash screen is told.
pub fn init_events(ev: &InitEvent) -> (r: Vec<SplashEvent>)
    ensures
        r.deep_view() == told(ev@),
{
    match ev {
        InitEvent::Begun => one_step(100, "Connect to Docker…"),
        InitEvent::Connected => one_step(450, "Warm-up containers…"),
        InitEvent::Listed => one_step(700, "Build UI state…"),
        InitEvent::Built => {
            let mut r = one_step(950, "Final touches…");
            let ghost before = r.deep_view();
            r.push(SplashEvent::Done);
            assert(r.deep_view() == before.push(SplashEventView::Done));
            r
        },
        InitEvent::ConnectFailed(e) => failure("docker connect: ", e.as_str()),
        InitEvent::ListFailed(e) => failure("list: ", e.as_str()),
        InitEvent::BuildFailed(e) => failure("ui: ", e.as_str()),
    }
}

} // verus!
