//! Which tab a key turns to, which pane it opens, and where the engine is looked for.

use crate::docker::{candidates, first_there};
use crate::key::KeyCode;
use crate::laws::keys::pressed;
use crate::logs::FollowView;
use crate::text;
use crate::ui::{Tab, UiActionView, UiModel};
use vstd::prelude::*;

verus! {

/// The digits turn to the tabs in their order, and Tab turns to the next one; what the tabs hold
/// stays as it is.
pub proof fn digits_turn_to_tabs(m: UiModel, now: u64)
    requires
        !m.is_modal_open(),
    ensures
        m.on_key(pressed(KeyCode::Char('1')), now) == (
            UiModel { tab: Tab::Containers, ..m },
            UiActionView::Nothing,
        ),
        m.on_key(pressed(KeyCode::Char('2')), now) == (
            UiModel { tab: Tab::Images, ..m },
            UiActionView::Nothing,
        ),
        m.on_key(pressed(KeyCode::Char('3')), now) == (
            UiModel { tab: Tab::Networks, ..m },
            UiActionView::Nothing,
        ),
        m.on_key(pressed(KeyCode::Char('4')), now) == (
            UiModel { tab: Tab::Compose, ..m },
            UiActionView::Nothing,
        ),
        m.on_key(pressed(KeyCode::Char('5')), now) == (
            UiModel { tab: Tab::Volumes, ..m },
            UiActionView::Nothing,
        ),
        m.tab == Tab::Containers ==> m.on_key(pressed(KeyCode::Tab), now).0.tab == Tab::Images,
        m.tab == Tab::Images ==> m.on_key(pressed(KeyCode::Tab), now).0.tab == Tab::Networks,
        m.tab == Tab::Networks ==> m.on_key(pressed(KeyCode::Tab), now).0.tab == Tab::Compose,
        m.tab == Tab::Compose ==> m.on_key(pressed(KeyCode::Tab), now).0.tab == Tab::Volumes,
        m.tab == Tab::Volumes ==> m.on_key(pressed(KeyCode::Tab), now).0.tab == Tab::Containers,
        m.on_key(pressed(KeyCode::Tab), now).0.on_key(pressed(KeyCode::BackTab), now).0 == m,
{
}

/// `l` opens the log of the container under the cursor and follows it from its newest line, and
/// `t` shows that container's statistics; without one, a message says so.
pub proof fn panes_open_on_the_container(m: UiModel, id: Seq<char>, now: u64)
    requires
        !m.is_modal_open(),
        m.tab == Tab::Containers,
        m.containers.current() matches Some(p) && p.target.id == id,
    ensures
        ({
            let (n, a) = m.on_key(pressed(KeyCode::Char('l')), now);
            &&& n.logs.visible
            &&& n.logs.container_id == Some(id)
            &&& n.logs.follow
            &&& n.logs.scroll == 0
            &&& n.logs.lines.len() == 0
            &&& a == UiActionView::LogStream(FollowView::Start(id))
        }),
        ({
            let (n, a) = m.on_key(pressed(KeyCode::Char('t')), now);
            &&& n.stats.visible
            &&& n.stats.container_id == Some(id)
            &&& n.on_key(pressed(KeyCode::Char('t')), now).0.stats.visible == false
        }),
{
}

/// Without a container under the cursor nothing is opened, and a message says so.
pub proof fn no_pane_without_a_container(m: UiModel, now: u64)
    requires
        !m.is_modal_open(),
        m.tab == Tab::Containers,
        m.containers.current() is None,
    ensures
        m.on_key(pressed(KeyCode::Char('l')), now).1 == UiActionView::Nothing,
        !m.on_key(pressed(KeyCode::Char('l')), now).0.logs.visible,
        m.on_key(pressed(KeyCode::Char('l')), now).0.toasts.len() == m.toasts.len() + 1,
        !m.on_key(pressed(KeyCode::Char('t')), now).0.stats.visible,
{
}

/// Any other key is the tab's own: it changes that tab, and the action is that tab's.
pub proof fn keys_go_to_the_tab(m: UiModel, c: char, now: u64)
    requires
        !m.is_modal_open(),
        c != 'l',
        c != 't',
        !('1' <= c <= '5'),
    ensures
        ({
            let k = pressed(KeyCode::Char(c));
            let (n, a) = m.on_key(k, now);
            &&& m.tab == Tab::Containers ==> n.containers == m.containers.on_key(k).0 && a
                == UiActionView::Containers(m.containers.on_key(k).1) && n.images == m.images
            &&& m.tab == Tab::Images ==> n.images == m.images.on_key(k).0 && a
                == UiActionView::Images(m.images.on_key(k).1) && n.containers == m.containers
            &&& m.tab == Tab::Networks ==> n.networks == m.networks.on_key(k).0 && a
                == UiActionView::Networks(m.networks.on_key(k).1) && n.containers == m.containers
            &&& m.tab == Tab::Compose ==> n.compose == m.compose.on_key(k).0 && a
                == UiActionView::Compose(m.compose.on_key(k).1) && n.containers == m.containers
            &&& m.tab == Tab::Volumes ==> n.volumes == m.volumes.on_key(k).0 && a
                == UiActionView::Volumes(m.volumes.on_key(k).1) && n.containers == m.containers
            &&& n.tab == m.tab
        }),
{
}

/// The socket is looked for where `DOCKER_HOST` says, then in the user's directory, then in the
/// system's, and the first that is there is taken.
pub proof fn sockets_in_their_order(path: Seq<char>, uid: u32, there: Seq<bool>)
    requires
        there.len() == 3,
    ensures
        ({
            let all = candidates(Some("unix://"@ + path), Some(uid));
            &&& all.len() == 3
            &&& all[0] == path
            &&& all[1] == "/run/user/"@ + text::decimal(uid as nat) + "/docker.sock"@
            &&& all[2] == "/var/run/docker.sock"@
            &&& there[0] ==> first_there(all, there) == Some(0int)
            &&& !there[0] && there[1] ==> first_there(all, there) == Some(1int)
            &&& !there[0] && !there[1] && there[2] ==> first_there(all, there) == Some(2int)
            &&& !there[0] && !there[1] && !there[2] ==> first_there(all, there) is None
        }),
        candidates(None, Some(uid)).len() == 2,
        candidates(None, Some(uid))[0] == "/run/user/"@ + text::decimal(uid as nat)
            + "/docker.sock"@,
        candidates(None, None).len() == 1,
        candidates(None, None)[0] == "/var/run/docker.sock"@,
{
    reveal_strlit("unix://");
    let h = "unix://"@ + path;
    let n = "unix://"@.len() as int;
    assert(h.subrange(0, n) == "unix://"@);
    assert(h.skip(n) == path);
    assert(text::begins(h, "unix://"@));
    let all = candidates(Some(h), Some(uid));
    assert(all.len() == 3);
    reveal_with_fuel(first_there, 4);
    assert(all.drop_last().len() == 2);
    assert(all.drop_last().drop_last().len() == 1);
    assert(all.drop_last().drop_last().drop_last().len() == 0);
}

/// A note of a tab becomes a message behind the others, for two seconds.
pub proof fn notes_become_messages(
    l: Seq<crate::ui::ToastView>,
    msg: Seq<char>,
    color: crate::theme::Color,
    now: u64,
)
    requires
        now + 2000 <= u64::MAX,
    ensures
        crate::ui::with_note(l, None, now) == l,
        ({
            let n = crate::ui::with_note(l, Some((msg, color)), now);
            &&& n.drop_last() == l
            &&& n.last().msg == msg
            &&& n.last().color == color
            &&& n.last().until == now + 2000
        }),
{
    let n = crate::ui::with_note(l, Some((msg, color)), now);
    assert(n.drop_last() == l);
}

} // verus!
