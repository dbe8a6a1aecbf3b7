//! What is done to the container under the cursor and to those that are marked, and what is said
//! of how it went.

use crate::containers::actions::ActionKind;
use crate::containers::summary::{ContainerModel, ContainerState};
use crate::containers::view::{
    pause_jobs, picked, ContainersActionView, ContainersModel, PauseJobView, PickedView, QueuedView,
    TargetView,
};
use crate::images::{ImageModel, ImagesActionView, ImagesModel};
use crate::key::KeyCode;
use crate::laws::keys::{bare_containers, pressed};
use crate::text;
use vstd::prelude::*;

verus! {

/// The container under the cursor is the one in that row of what is shown, by its id, its first
/// name and its state.
pub proof fn cursor_picks_its_row(
    m: ContainersModel,
    i: usize,
    id: Seq<char>,
    names: Seq<Seq<char>>,
)
    requires
        m.selected == Some(i),
        i < m.visible().len(),
        m.rows[m.visible()[i as int]].id == Some(id),
        m.rows[m.visible()[i as int]].names == Some(names),
        names.len() > 0,
    ensures
        m.current() == Some(
            PickedView {
                target: TargetView { id, name: names[0] },
                state: m.rows[m.visible()[i as int]].state,
            },
        ),
{
}

proof fn chosen_members(m: ContainersModel, l: Seq<int>, p: PickedView)
    ensures
        m.chosen_of(l).contains(p) <==> exists|i: int|
            0 <= i < l.len() && picked(m.rows[#[trigger] l[i]]) == Some(p)
                && m.selected_ids.contains(p.target.id),
    decreases l.len(),
{
    if l.len() > 0 {
        let k = l.drop_last();
        chosen_members(m, k, p);
        let n = l.len() - 1;
        let before = m.chosen_of(k);
        let all = m.chosen_of(l);
        if all.contains(p) {
            let j = choose|j: int| 0 <= j < all.len() && all[j] == p;
            if j < before.len() {
                assert(before[j] == p);
                assert(before.contains(p));
                let i = choose|i: int|
                    0 <= i < k.len() && picked(m.rows[#[trigger] k[i]]) == Some(p)
                        && m.selected_ids.contains(p.target.id);
                assert(l[i] == k[i]);
            } else {
                assert(l[n] == l.last());
            }
        }
        if exists|i: int|
            0 <= i < l.len() && picked(m.rows[#[trigger] l[i]]) == Some(p)
                && m.selected_ids.contains(p.target.id) {
            let i = choose|i: int|
                0 <= i < l.len() && picked(m.rows[#[trigger] l[i]]) == Some(p)
                    && m.selected_ids.contains(p.target.id);
            if i < n {
                assert(k[i] == l[i]);
                assert(before.contains(p));
                let j = choose|j: int| 0 <= j < before.len() && before[j] == p;
                assert(all[j] == p);
            } else {
                assert(all.last() == p);
                assert(all[all.len() - 1] == p);
            }
        }
    }
}

/// The containers that a batch works on are exactly those that are marked and shown.
pub proof fn batch_is_what_is_marked(m: ContainersModel, p: PickedView)
    ensures
        m.chosen().contains(p) <==> exists|i: int|
            0 <= i < m.visible().len() && picked(m.rows[#[trigger] m.visible()[i]]) == Some(p)
                && m.selected_ids.contains(p.target.id),
{
    chosen_members(m, m.visible(), p);
}

/// `A` queues for each marked container, in their order, a stop where it runs and a start where it
/// does not; `D` asks whether to remove just these.
pub proof fn batch_keys(m: ContainersModel, k: int)
    requires
        bare_containers(m),
        0 <= k < m.chosen().len(),
    ensures
        ({
            let q = m.on_key(pressed(KeyCode::Char('A'))).0.queue;
            let c = m.chosen()[k];
            &&& q.len() == m.queue.len() + m.chosen().len()
            &&& q.take(m.queue.len() as int) == m.queue
            &&& q[m.queue.len() + k].target == c.target
            &&& q[m.queue.len() + k].kind == (if c.state == Some(ContainerState::Running) {
                ActionKind::Stopping
            } else {
                ActionKind::Starting
            })
        }),
        ({
            let (asked, first) = m.on_key(pressed(KeyCode::Char('D')));
            let second = asked.on_key(pressed(KeyCode::Char('y'))).1;
            &&& first == ContainersActionView::Nothing
            &&& second matches ContainersActionView::Remove(items) && items.len()
                == m.chosen().len() && items[k] == m.chosen()[k].target
        }),
{
    assert(m.chosen().len() > 0);
    let q = m.on_key(pressed(KeyCode::Char('A'))).0.queue;
    assert(q.take(m.queue.len() as int) == m.queue);
}

/// In a batch of pauses a running container is paused, a paused one resumed, and any other left
/// alone.
pub proof fn batch_of_pauses(l: Seq<PickedView>, p: PickedView)
    ensures
        pause_jobs(Seq::empty()).len() == 0,
        p.state == Some(ContainerState::Running) ==> pause_jobs(l.push(p)) == pause_jobs(l).push(
            PauseJobView { target: p.target, pause: true },
        ),
        p.state == Some(ContainerState::Paused) ==> pause_jobs(l.push(p)) == pause_jobs(l).push(
            PauseJobView { target: p.target, pause: false },
        ),
        p.state != Some(ContainerState::Running) && p.state != Some(ContainerState::Paused)
            ==> pause_jobs(l.push(p)) == pause_jobs(l),
{
    assert(l.push(p).drop_last() == l);
}

/// Queued actions are begun one after the other, the oldest first.
pub proof fn queue_is_worked_off(m: ContainersModel, q: QueuedView, rest: Seq<QueuedView>)
    requires
        m.anim is None,
        m.queue == seq![q] + rest,
    ensures
        m.ticked().1 == Some(q),
        m.ticked().0.queue == rest,
        m.ticked().0.anim matches Some(a) && a.kind == q.kind && a.name == q.target.name && a.result
            is None,
        m.ticked().0.ticked().1 is None,
        m.ticked().0.ticked().0.queue == rest,
{
    assert(m.queue[0] == q);
    assert(m.queue.skip(1) == rest);
}

/// What went well is told in the colour of what is well, with the name; what failed, in the colour
/// of errors, with the error.
pub proof fn outcomes_are_told(
    m: ContainersModel,
    t: TargetView,
    pause: bool,
    e: Seq<char>,
)
    ensures
        m.paused(t, true, Ok(())).0.note == Some(("⏸ paused "@ + t.name, m.theme.ok)),
        m.paused(t, false, Ok(())).0.note == Some(("▶ unpaused "@ + t.name, m.theme.ok)),
        m.paused(t, pause, Ok(())).1 is Refresh,
        m.paused(t, true, Err(e)).0.note == Some(("❌ pause: "@ + e, m.theme.err)),
        m.paused(t, false, Err(e)).0.note == Some(("❌ unpause: "@ + e, m.theme.err)),
        m.paused(t, pause, Err(e)).1 == ContainersActionView::Nothing,
        m.removed(seq![t], seq![None]).note matches Some((msg, color)) && color == m.theme.ok,
        m.removed(seq![t], seq![Some(e)]).note == Some(
            ("❌ failed: "@ + (t.name + " ("@ + e + ")"@), m.theme.err),
        ),
{
    let items = seq![t];
    let good: Seq<Option<Seq<char>>> = seq![None];
    let bad = seq![Some(e)];
    assert(items.drop_last().len() == 0);
    assert(items.last() == t);
    assert(crate::containers::view::removal_failures(items.drop_last(), good).len() == 0);
    assert(crate::containers::view::removal_failures(items.drop_last(), bad).len() == 0);
    assert(crate::containers::view::removal_failures(items, good).len() == 0);
    let f = crate::containers::view::removal_failures(items, bad);
    assert(f == seq![t.name + " ("@ + e + ")"@]);
    assert(text::joined(f, ", "@) == f[0]);
}

/// An action that is over is told of with what it was and the container's name, and then another
/// one can begin.
pub proof fn ended_actions_are_told(m: ContainersModel)
    requires
        m.anim is Some,
        m.anim->0.result == Some(Ok::<(), Seq<char>>(())),
    ensures
        m.settled(true, true).anim is None,
        m.anim->0.kind == ActionKind::Starting ==> m.settled(true, true).note == Some(
            ("▶ started "@ + m.anim->0.name, m.theme.ok),
        ),
        m.anim->0.kind == ActionKind::Stopping ==> m.settled(true, true).note == Some(
            ("⏹ stopped "@ + m.anim->0.name, m.theme.ok),
        ),
        m.settled(false, true) == m,
        m.settled(true, false) == m,
{
}

/// A line of the saved table: the state, the first name, the image, the ports and the id, with
/// tabs between them.
pub proof fn saved_table_line(
    c: ContainerModel,
    id: Seq<char>,
    name: Seq<char>,
    image: Seq<char>,
)
    requires
        c.id == Some(id),
        c.names == Some(seq![name]),
        c.image == Some(image),
        c.state == Some(ContainerState::Running),
        c.ports is None,
    ensures
        crate::containers::view::saved_line(c) == "RUNNING"@ + "\t"@ + name + "\t"@ + image + "\t"@
            + Seq::<char>::empty() + "\t"@ + id + "\n"@,
{
}

/* ---------------- pulls ---------------- */

/// `p` pulls the image under the cursor by its tag, where it has one; where images are marked, it
/// pulls these.
pub proof fn p_pulls(m: ImagesModel, img: ImageModel, tag: Seq<char>)
    requires
        m.popup is None,
        !m.searching,
        !m.pull.visible,
        m.selected_ids == Set::<Seq<char>>::empty(),
        m.current() == Some(img),
        img.repo_tags == seq![tag],
        tag.len() > 0,
    ensures
        !text::begins(tag, "<none>"@) ==> {
            let (n, a) = m.on_key(pressed(KeyCode::Char('p')));
            &&& a == ImagesActionView::Pull(seq![tag])
            &&& n.pull.visible
            &&& n.pull.title == "Pull "@ + tag
            &&& n.pull.finished is None
        },
        text::begins(tag, "<none>"@) ==> m.on_key(pressed(KeyCode::Char('p'))).1
            == ImagesActionView::Nothing,
{
    let l = img.repo_tags;
    assert(l[0] == tag);
    assert(l.drop_first().len() == 0);
    assert(crate::images::first_pullable(l.drop_first()) is None);
}

/// A marked image that has a tag is pulled; one that is not marked is not.
pub proof fn marked_images_are_pulled(m: ImagesModel, n: int, tag: Seq<char>)
    requires
        0 <= n,
        m.rows[n].pullable() == Some(tag),
    ensures
        m.selected_ids.contains(m.rows[n].id) ==> m.marked_refs(n + 1) == m.marked_refs(n).push(tag),
        !m.selected_ids.contains(m.rows[n].id) ==> m.marked_refs(n + 1) == m.marked_refs(n),
        m.marked_refs(0).len() == 0,
{
}

/// A pull that is watched is cancelled by Esc, and its end is told and the list asked for anew.
pub proof fn end_of_pull_refreshes(m: ImagesModel, ok: bool, summary: Seq<char>)
    requires
        m.pull.finished is None,
        !m.pull.finished_taken,
    ensures
        ({
            let done = crate::pull::PullEventView::Done { ok, summary };
            let (n, again) = m.ticked(seq![done]);
            &&& again
            &&& n.note matches Some((msg, color)) && color == (if ok {
                m.theme.ok
            } else {
                m.theme.err
            })
            &&& !n.ticked(Seq::empty()).1
        }),
        m.pull.visible ==> m.on_key(pressed(KeyCode::Esc)).1 == ImagesActionView::StopPull,
        !m.ticked(Seq::empty()).1,
{
    let done = crate::pull::PullEventView::Done { ok, summary };
    let l = seq![done];
    assert(l.drop_last().len() == 0);
    assert(l.last() == done);
    assert(crate::images::after_events(m.pull, l.drop_last()) == m.pull);
}

/// How a batch of pauses went is told: how many were paused or resumed, or what failed.
pub proof fn batch_of_pauses_is_told(m: ContainersModel, t: TargetView, e: Seq<char>)
    ensures
        m.paused_many(seq![PauseJobView { target: t, pause: true }], seq![None]).note == Some(
            ("⏸ paused: "@ + text::decimal(1), m.theme.ok),
        ),
        m.paused_many(seq![PauseJobView { target: t, pause: false }], seq![None]).note == Some(
            ("▶ unpaused: "@ + text::decimal(1), m.theme.ok),
        ),
        m.paused_many(seq![PauseJobView { target: t, pause: true }], seq![Some(e)]).note matches Some(
            (msg, color),
        ) && color == m.theme.err,
{
    let good: Seq<Option<Seq<char>>> = seq![None];
    let bad = seq![Some(e)];
    let a = seq![PauseJobView { target: t, pause: true }];
    let b = seq![PauseJobView { target: t, pause: false }];
    assert(a.drop_last().len() == 0 && b.drop_last().len() == 0);
    assert(a.last().pause && !b.last().pause);
    reveal_with_fuel(crate::containers::view::done_count, 2);
    reveal_with_fuel(crate::containers::view::job_failures, 2);
}

/// A line of the saved images: the first tag, the size, when it was made, and the id.
pub proof fn saved_image_line(img: ImageModel, tag: Seq<char>, now: u64)
    requires
        img.repo_tags == seq![tag],
        tag.len() <= 42,
        img.id.len() <= 20,
    ensures
        crate::images::saved_line(img, now) == tag + "\t"@ + crate::units::size_text(img.size)
            + "\t"@ + crate::units::created_text(img.created, now) + "\t"@ + img.id + "\n"@,
{
}

} // verus!
