//! What the keys do.

use crate::compose::{ComposeActionView, ComposeCommand, ComposeModel};
use crate::containers::actions::{
    first_step, next_step, ActionCallView, ActionEventView, ActionKind, ActionStage, HealthStatus,
    Inspection,
};
use crate::containers::summary::ContainerState;
use crate::containers::view::{ContainersActionView, ContainersModel, PickedView, PopupView};
use crate::images::{ImagesActionView, ImagesModel};
use crate::key::{KeyCode, KeyEvent};
use crate::list;
use crate::networks::{NetworksActionView, NetworksModel};
use crate::volumes::{VolumesActionView, VolumesModel};
use vstd::prelude::*;

verus! {

pub open spec fn pressed(code: KeyCode) -> KeyEvent {
    KeyEvent { code, control: false }
}

/* ---------------- the cursor and the search line ---------------- */

/// The cursor goes down and up by one row, and stays on the last row and on the first.
pub proof fn cursor_goes_by_one(i: usize, n: int)
    requires
        0 <= i < n <= usize::MAX,
    ensures
        i + 1 < n ==> list::moved_cursor(Some(i), n, 1) == Some((i + 1) as usize),
        i + 1 == n ==> list::moved_cursor(Some(i), n, 1) == Some(i),
        i > 0 ==> list::moved_cursor(Some(i), n, -1) == Some((i - 1) as usize),
        i == 0 ==> list::moved_cursor(Some(i), n, -1) == Some(i),
        list::held_cursor(Some(i), n) == Some(i),
        list::clamped_cursor(Some(i), n) == Some(i),
        list::held_cursor(None, n) == Some(0usize),
        list::held_cursor(Some(i), 0) is None,
{
}

/// What is typed goes behind the query, Backspace takes the last character away, Enter keeps the
/// query and closes the line, and Esc closes it and takes the query away.
pub proof fn search_line_is_typed(q: Seq<char>, c: char, control: bool)
    ensures
        list::searched(q, KeyEvent { code: KeyCode::Char(c), control }) == (true, q.push(c)),
        list::searched(q.push(c), KeyEvent { code: KeyCode::Backspace, control }) == (true, q),
        list::searched(q, KeyEvent { code: KeyCode::Enter, control }) == (false, q),
        list::searched(q, KeyEvent { code: KeyCode::Esc, control }).0 == false,
        list::searched(q, KeyEvent { code: KeyCode::Esc, control }).1.len() == 0,
{
    assert(q.push(c).drop_last() == q);
}

/// A question is agreed to with Enter or `y` and refused with Esc or `n`; no key does both.
pub proof fn answers(key: KeyEvent)
    ensures
        list::agrees(key) <==> key.code == KeyCode::Enter || key.code == KeyCode::Char('y'),
        list::refuses(key) <==> key.code == KeyCode::Esc || key.code == KeyCode::Char('n'),
        !(list::agrees(key) && list::refuses(key)),
        list::closes(key) <==> key.code == KeyCode::Esc || key.code == KeyCode::Enter || key.code
            == KeyCode::Char('q'),
{
}

/* ---------------- containers ---------------- */

/// A list that nothing lies over.
pub open spec fn bare_containers(m: ContainersModel) -> bool {
    m.shell is None && m.popup is None && !m.searching
}

/// `p` pauses a running container and resumes a paused one; on any other it does nothing.
pub proof fn p_pauses_and_resumes(m: ContainersModel, p: PickedView)
    requires
        bare_containers(m),
        m.current() == Some(p),
    ensures
        p.state == Some(ContainerState::Running) ==> m.on_key(pressed(KeyCode::Char('p'))) == (
            m,
            ContainersActionView::Pause(p.target),
        ),
        p.state == Some(ContainerState::Paused) ==> m.on_key(pressed(KeyCode::Char('p'))) == (
            m,
            ContainersActionView::Unpause(p.target),
        ),
        p.state != Some(ContainerState::Running) && p.state != Some(ContainerState::Paused)
            ==> m.on_key(pressed(KeyCode::Char('p'))).1 == ContainersActionView::Nothing,
{
}

/// `d` and Delete ask before the current container is removed; `y` then removes that one and no
/// other, and `n` removes none.
pub proof fn removal_is_asked_for(m: ContainersModel, p: PickedView)
    requires
        bare_containers(m),
        m.current() == Some(p),
    ensures
        ({
            let (asked, first) = m.on_key(pressed(KeyCode::Char('d')));
            let (after, second) = asked.on_key(pressed(KeyCode::Char('y')));
            let (kept, third) = asked.on_key(pressed(KeyCode::Char('n')));
            &&& first == ContainersActionView::Nothing
            &&& second == ContainersActionView::Remove(seq![p.target])
            &&& after.popup is None
            &&& third == ContainersActionView::Nothing
            &&& kept.popup is None
            &&& m.on_key(pressed(KeyCode::Delete)) == (asked, first)
        }),
{
}

/// `i` shows the current container, `b` opens a shell in it while it runs, `x` marks it, and `a`
/// changes whether stopped containers are listed and asks for the list.
pub proof fn keys_on_a_container(m: ContainersModel, p: PickedView)
    requires
        bare_containers(m),
        m.current() == Some(p),
    ensures
        m.on_key(pressed(KeyCode::Char('i'))) == (m, ContainersActionView::Inspect(p.target)),
        p.state == Some(ContainerState::Running) ==> m.on_key(pressed(KeyCode::Char('b'))) == (
            m,
            ContainersActionView::OpenShell(p.target),
        ),
        p.state != Some(ContainerState::Running) ==> m.on_key(pressed(KeyCode::Char('b'))).1
            == ContainersActionView::Nothing,
        m.on_key(pressed(KeyCode::Char('x'))).0.selected_ids.contains(p.target.id)
            == !m.selected_ids.contains(p.target.id),
        m.on_key(pressed(KeyCode::Char('C'))).0.selected_ids == Set::<Seq<char>>::empty(),
        m.on_key(pressed(KeyCode::Char('a'))).0.all == !m.all,
        m.on_key(pressed(KeyCode::Char('a'))).1 is Refresh,
        m.on_key(pressed(KeyCode::Char('O'))).0.sort_asc == !m.sort_asc,
        m.on_key(pressed(KeyCode::Char('/'))).0.searching,
        m.on_key(pressed(KeyCode::Char('/'))).0.query.len() == 0,
{
}

/// A start asks the engine to start the container, a stop to stop it; a call that fails ends the
/// action with its error.
pub proof fn actions_ask_for_what_they_are(kind: ActionKind, e: Seq<char>)
    ensures
        first_step(ActionKind::Starting).next == ActionCallView::Start,
        first_step(ActionKind::Stopping).next is Stop,
        first_step(kind).stage == ActionStage::Calling,
        next_step(kind, ActionStage::Calling, ActionEventView::Called(Err(e))).next
            == ActionCallView::End(Err(e)),
        next_step(kind, ActionStage::Calling, ActionEventView::Called(Ok(()))).next
            == ActionCallView::Inspect,
        next_step(ActionKind::Starting, ActionStage::Calling, ActionEventView::Called(Ok(()))).stage
            == ActionStage::WaitingRunning,
        next_step(ActionKind::Stopping, ActionStage::Calling, ActionEventView::Called(Ok(()))).stage
            == ActionStage::WaitingExit,
{
}

/// A start is over once the container was seen to run, and to be healthy where it has a health
/// check; a stop is over once it was seen not to run. Neither is over before.
pub proof fn actions_end_when_they_are_done(kind: ActionKind, i: Inspection)
    ensures
        ({
            let seen = ActionEventView::Inspected(Some(i));
            let runs = i.running == Some(true);
            let healthy = i.health == Some(Some(HealthStatus::Healthy));
            &&& next_step(kind, ActionStage::WaitingRunning, seen).next is End <==> runs
                && i.health is None
            &&& next_step(kind, ActionStage::WaitingRunning, seen).stage
                == ActionStage::WaitingHealthy <==> runs && i.health is Some
            &&& next_step(kind, ActionStage::WaitingHealthy, seen).next is End <==> healthy
            &&& next_step(kind, ActionStage::WaitingExit, seen).next is End <==> !runs
        }),
        next_step(kind, ActionStage::WaitingRunning, ActionEventView::Inspected(None)).next is Sleep,
        next_step(kind, ActionStage::WaitingExit, ActionEventView::Inspected(None)).next is Sleep,
        next_step(kind, ActionStage::WaitingExit, ActionEventView::Slept).next
            == ActionCallView::Inspect,
        next_step(kind, ActionStage::WaitingRunning, ActionEventView::Slept).next
            == ActionCallView::Inspect,
{
}

/* ---------------- the other tabs ---------------- */

/// On a project, `u` brings it up, `d` takes it down, `s` lists its services, `l` shows its log,
/// and `e` opens its file; `r` looks for projects again.
pub proof fn keys_on_a_project(m: ComposeModel, p: crate::compose::ProjectModel)
    requires
        m.popup is None,
        !m.searching,
        m.current() == Some(p),
    ensures
        m.on_key(pressed(KeyCode::Char('u'))) == (m, ComposeActionView::Run(ComposeCommand::Up, p)),
        m.on_key(pressed(KeyCode::Char('d'))) == (m, ComposeActionView::Run(ComposeCommand::Down, p)),
        m.on_key(pressed(KeyCode::Char('s'))) == (m, ComposeActionView::Run(ComposeCommand::Ps, p)),
        m.on_key(pressed(KeyCode::Char('l'))) == (m, ComposeActionView::Run(ComposeCommand::Logs, p)),
        m.on_key(pressed(KeyCode::Char('e'))) == (m, ComposeActionView::Edit(p)),
        m.on_key(pressed(KeyCode::Char('r'))) == (m, ComposeActionView::Rescan),
        m.on_key(pressed(KeyCode::F(5))) == (m, ComposeActionView::Rescan),
{
}

/// What a command on a project wrote is shown; one that failed is told as an error, and nothing is
/// shown over the list.
pub proof fn command_output_is_shown(
    m: ComposeModel,
    c: ComposeCommand,
    name: Seq<char>,
    out: Seq<char>,
)
    requires
        m.popup is None,
        crate::text::trimmed(out).len() > 0,
    ensures
        m.ran(c, name, Ok(out)).popup is Some,
        m.ran(c, name, Ok(out)).popup->0.content == out,
        m.ran(c, name, Err(out)).popup is None,
        m.ran(c, name, Err(out)).note matches Some((msg, color)) && color == m.theme.err,
        m.ran(c, name, Ok(out)).rows == m.rows,
{
}

/// `i` shows the current network; `d` asks before it is deleted, unless every engine has it; and
/// `y` then deletes that one.
pub proof fn keys_on_a_network(m: NetworksModel, nw: crate::networks::NetworkModel)
    requires
        m.popup is None,
        !m.searching,
        m.current() == Some(nw),
    ensures
        m.on_key(pressed(KeyCode::Char('i'))) == (m, NetworksActionView::Inspect(nw.id)),
        m.on_key(pressed(KeyCode::Char('r'))) == (m, NetworksActionView::Refresh),
        m.on_key(pressed(KeyCode::F(5))) == (m, NetworksActionView::Refresh),
        m.on_key(pressed(KeyCode::Char('a'))).0.show_builtin == !m.show_builtin,
        nw.name == "bridge"@ || nw.name == "host"@ || nw.name == "none"@ ==> m.on_key(
            pressed(KeyCode::Char('d')),
        ).0.popup is None,
        nw.name != "bridge"@ && nw.name != "host"@ && nw.name != "none"@ ==> {
            let (asked, first) = m.on_key(pressed(KeyCode::Char('d')));
            &&& first == NetworksActionView::Nothing
            &&& asked.on_key(pressed(KeyCode::Char('y'))).1 == (NetworksActionView::Delete {
                id: nw.id,
                name: nw.name,
            })
            &&& asked.on_key(pressed(KeyCode::Char('n'))).1 == NetworksActionView::Nothing
            &&& asked.on_key(pressed(KeyCode::Char('n'))).0.popup is None
        },
{
}

/// `i` shows the current volume; `d` asks before it is deleted, and `X` before all unused ones are;
/// `y` then does it, and `n` does not.
pub proof fn keys_on_a_volume(m: VolumesModel, v: crate::volumes::VolumeModel)
    requires
        m.popup is None,
        !m.searching,
        !m.pull.visible,
        m.current() == Some(v),
    ensures
        m.on_key(pressed(KeyCode::Char('i'))) == (m, VolumesActionView::Inspect(v.name)),
        m.on_key(pressed(KeyCode::Char('r'))) == (m, VolumesActionView::Refresh),
        ({
            let (asked, first) = m.on_key(pressed(KeyCode::Char('d')));
            &&& first == VolumesActionView::Nothing
            &&& asked.on_key(pressed(KeyCode::Char('y'))).1 == VolumesActionView::Delete(v.name)
            &&& asked.on_key(pressed(KeyCode::Char('n'))).1 == VolumesActionView::Nothing
            &&& asked.on_key(pressed(KeyCode::Char('n'))).0.popup is None
        }),
        ({
            let (asked, first) = m.on_key(pressed(KeyCode::Char('X')));
            &&& first == VolumesActionView::Nothing
            &&& asked.on_key(pressed(KeyCode::Char('y'))).1 == VolumesActionView::Prune
            &&& asked.on_key(pressed(KeyCode::Char('n'))).1 == VolumesActionView::Nothing
            &&& asked.on_key(pressed(KeyCode::Char('n'))).0.popup is None
        }),
{
}

/// `i` shows the current image; `d` asks before it is removed; `y` then removes that one, and `n`
/// does not; `x` marks it; `a` changes whether only images without a tag are listed.
pub proof fn keys_on_an_image(m: ImagesModel, img: crate::images::ImageModel)
    requires
        m.popup is None,
        !m.searching,
        !m.pull.visible,
        m.current() == Some(img),
    ensures
        m.on_key(pressed(KeyCode::Char('i'))) == (m, ImagesActionView::Inspect(img.id)),
        m.on_key(pressed(KeyCode::Char('r'))) == (m, ImagesActionView::Refresh),
        m.on_key(pressed(KeyCode::Char('a'))).0.dangling_only == !m.dangling_only,
        m.on_key(pressed(KeyCode::Char('x'))).0.selected_ids.contains(img.id)
            == !m.selected_ids.contains(img.id),
        m.on_key(pressed(KeyCode::Char('C'))).0.selected_ids == Set::<Seq<char>>::empty(),
        ({
            let (asked, first) = m.on_key(pressed(KeyCode::Char('d')));
            &&& first == ImagesActionView::Nothing
            &&& asked.on_key(pressed(KeyCode::Char('y'))).1 matches ImagesActionView::Delete {
                id,
                name,
            } && id == img.id
            &&& asked.on_key(pressed(KeyCode::Char('n'))).1 == ImagesActionView::Nothing
            &&& asked.on_key(pressed(KeyCode::Char('n'))).0.popup is None
        }),
{
}

} // verus!
