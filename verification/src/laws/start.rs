//! How the start goes.

use crate::app::{told, InitEventView};
use crate::key::KeyCode;
use crate::laws::keys::pressed;
use crate::splash::{SplashEventView, SplashModel};
use vstd::prelude::*;

verus! {

/// A step is shown with its label and moves the bar; the end fills it; a failure is shown in its
/// place.
pub proof fn steps_are_shown(m: SplashModel, share: u32, label: Seq<char>, e: Seq<char>, now: u64)
    requires
        share <= 1000,
    ensures
        ({
            let step = m.heard(SplashEventView::Step { permille: share, label }, now);
            &&& step.target == share
            &&& step.label == label
            &&& step.done == m.done
        }),
        m.heard(SplashEventView::Done, now).done,
        m.heard(SplashEventView::Done, now).target == 1000,
        m.heard(SplashEventView::Done, now).done_at == Some(now),
        m.heard(SplashEventView::Fail(e), now).fail == Some(e),
        m.heard(SplashEventView::Fail(e), now).foot()[1].text == e,
{
}

/// The screen goes when the start is done, the bar is full, and four tenths of a second have passed
/// since or the user is in a hurry; and not before.
pub proof fn screen_goes_when_done(m: SplashModel, t: u64, now: u64)
    requires
        m.fail is None,
        m.done_at == Some(t),
        !m.skip_requested,
    ensures
        m.done && now >= t + 400 ==> m.ready(true, now),
        t <= now && now < t + 400 ==> !m.ready(true, now),
        !m.ready(false, now),
        !m.done ==> !m.ready(true, now),
        m.done ==> m.on_key(pressed(KeyCode::Esc)).ready(true, now),
        m.done ==> m.on_key(pressed(KeyCode::Enter)).ready(true, now),
{
}

/// The start connects, lists and builds, in this order, each step further than the one before; only
/// the last one ends it, and a failure is told as one.
pub proof fn start_goes_on(e: Seq<char>)
    ensures
        told(InitEventView::Begun)[0] matches SplashEventView::Step { permille: a, label: la } && (
        told(InitEventView::Connected)[0] matches SplashEventView::Step { permille: b, label: lb }
            && (told(InitEventView::Listed)[0] matches SplashEventView::Step {
            permille: c,
            label: lc,
        } && (told(InitEventView::Built)[0] matches SplashEventView::Step {
            permille: d,
            label: ld,
        } && a < b < c < d <= 1000))),
        told(InitEventView::Built).last() == SplashEventView::Done,
        told(InitEventView::ConnectFailed(e)).last() is Fail,
        told(InitEventView::ListFailed(e)).last() is Fail,
        told(InitEventView::BuildFailed(e)).last() is Fail,
{
}

/// No step moves the bar beyond its end.
pub proof fn bar_ends_at_its_end(m: SplashModel, share: u32, label: Seq<char>, now: u64)
    requires
        share > 1000,
    ensures
        m.heard(SplashEventView::Step { permille: share, label }, now).target == 1000,
{
}

} // verus!
