//! What the lists of the tabs find, and in which order they show it.

use crate::compose::{ComposeModel, ProjectModel};
use crate::containers::summary::SortKey as ContainerSort;
use crate::containers::view::ContainersModel;
use crate::images::{ImageModel, ImagesModel, SortKey as ImageSort};
use crate::list;
use crate::networks::{NetworkModel, NetworksModel, SortKey as NetworkSort};
use crate::text;
use crate::volumes::{SortKey as VolumeSort, VolumeModel, VolumesModel};
use vstd::prelude::*;

verus! {

/// A text holds a word, whatever the case of the letters.
pub open spec fn has(t: Seq<char>, word: Seq<char>) -> bool {
    text::holds(text::lowercase(t), text::lowercase(word))
}

proof fn held_within(a: Seq<char>, b: Seq<char>, c: Seq<char>, t: Seq<char>)
    requires
        text::holds(b, t),
    ensures
        text::holds(a + b + c, t),
{
    let i = choose|i: int| #[trigger] text::occurs_at(b, t, i);
    let s = a + b + c;
    assert(s.subrange(a.len() + i, a.len() + i + t.len()) == b.subrange(i, i + t.len()));
    assert(text::occurs_at(s, t, a.len() + i));
}

proof fn held_in_four(w: Seq<char>, x: Seq<char>, y: Seq<char>, z: Seq<char>, t: Seq<char>)
    requires
        text::holds(w, t) || text::holds(x, t) || text::holds(y, t) || text::holds(z, t),
    ensures
        text::holds(w + " "@ + x + " "@ + y + " "@ + z, t),
{
    let s = w + " "@ + x + " "@ + y + " "@ + z;
    let none = Seq::<char>::empty();
    if text::holds(w, t) {
        held_within(none, w, " "@ + x + " "@ + y + " "@ + z, t);
        assert(none + w + (" "@ + x + " "@ + y + " "@ + z) == s);
    } else if text::holds(x, t) {
        held_within(w + " "@, x, " "@ + y + " "@ + z, t);
        assert(w + " "@ + x + (" "@ + y + " "@ + z) == s);
    } else if text::holds(y, t) {
        held_within(w + " "@ + x + " "@, y, " "@ + z, t);
        assert(w + " "@ + x + " "@ + y + (" "@ + z) == s);
    } else {
        held_within(w + " "@ + x + " "@ + y + " "@, z, none, t);
        assert(w + " "@ + x + " "@ + y + " "@ + z + none == s);
    }
}

/// A network is found if each word of the query stands in its name, its id, its driver or its
/// scope. The networks that every engine has are shown only when they are asked for.
pub proof fn network_is_found(nw: NetworkModel, words: Seq<Seq<char>>, builtin: bool)
    requires
        forall|i: int|
            0 <= i < words.len() ==> has(nw.name, #[trigger] words[i]) || has(nw.id, words[i])
                || has(nw.driver, words[i]) || has(nw.scope, words[i]),
    ensures
        builtin ==> nw.matches(list::lower_words(words), builtin),
        nw.name != "bridge"@ && nw.name != "host"@ && nw.name != "none"@ ==> nw.matches(
            list::lower_words(words),
            builtin,
        ),
        !builtin && (nw.name == "bridge"@ || nw.name == "host"@ || nw.name == "none"@)
            ==> !nw.matches(list::lower_words(words), builtin),
{
    let l = list::lower_words(words);
    assert forall|i: int| 0 <= i < l.len() implies text::holds(nw.hay(), #[trigger] l[i]) by {
        assert(has(nw.name, words[i]) || has(nw.id, words[i]) || has(nw.driver, words[i]) || has(
            nw.scope,
            words[i],
        ));
        held_in_four(
            text::lowercase(nw.name),
            text::lowercase(nw.id),
            text::lowercase(nw.driver),
            text::lowercase(nw.scope),
            l[i],
        );
    }
}

/// A project is found if each word of the query stands in its name, its file, its path or its
/// status.
pub proof fn project_is_found(m: ComposeModel, k: int, status: Seq<char>)
    requires
        0 <= k < m.rows.len(),
        m.rows[k].status == Some(status),
        forall|i: int|
            0 <= i < text::words(m.query).len() ==> has(
                m.rows[k].name,
                #[trigger] text::words(m.query)[i],
            ) || has(m.rows[k].file_name, text::words(m.query)[i]) || has(
                status,
                text::words(m.query)[i],
            ) || has(m.rows[k].path, text::words(m.query)[i]),
    ensures
        m.visible().contains(k),
{
    let words = text::words(m.query);
    let l = list::lower_words(words);
    let p: ProjectModel = m.rows[k];
    assert forall|i: int| 0 <= i < l.len() implies text::holds(p.hay(), #[trigger] l[i]) by {
        assert(has(p.name, words[i]) || has(p.file_name, words[i]) || has(status, words[i]) || has(
            p.path,
            words[i],
        ));
        held_in_four(
            text::lowercase(p.name),
            text::lowercase(p.file_name),
            text::lowercase(status),
            text::lowercase(p.path),
            l[i],
        );
    }
    assert(m.keep()[k]);
    crate::order::arranged_is_sorted(m.keep(), crate::compose::project_keys(m.rows), true);
}

/// A volume is found if and only if the query is empty or stands in its name, its driver or its
/// mountpoint.
pub proof fn volume_is_found(m: VolumesModel, k: int)
    requires
        0 <= k < m.rows.len(),
    ensures
        m.visible().contains(k) <==> text::lowercase(m.query).len() == 0 || has(
            m.rows[k].name,
            m.query,
        ) || has(m.rows[k].driver, m.query) || has(m.rows[k].mountpoint, m.query),
{
    crate::order::arranged_is_sorted(m.keep(), m.keys(), m.sort_asc);
    assert(m.keep()[k] == m.rows[k].matches(text::lowercase(m.query)));
}

/// An image with one tag is found if and only if each word of the query stands in the tag or in
/// the id; where only images without a tag are shown, a tagged one is not.
pub proof fn image_is_found(img: ImageModel, tag: Seq<char>, words: Seq<Seq<char>>)
    requires
        img.repo_tags == seq![tag],
    ensures
        img.matches(list::lower_words(words), false) <==> forall|i: int|
            0 <= i < words.len() ==> has(tag, #[trigger] words[i]) || has(img.id, words[i]),
        !text::begins(tag, "<none>"@) ==> !img.matches(list::lower_words(words), true),
        text::begins(tag, "<none>"@) ==> img.matches(list::lower_words(words), true)
            == img.matches(list::lower_words(words), false),
{
    let l = list::lower_words(words);
    assert(text::joined(img.repo_tags, " "@) == tag);
    if img.matches(l, false) {
        assert forall|i: int| 0 <= i < words.len() implies has(tag, #[trigger] words[i]) || has(
            img.id,
            words[i],
        ) by {
            assert(l[i] == text::lowercase(words[i]));
        }
    }
    if forall|i: int|
        0 <= i < words.len() ==> has(tag, #[trigger] words[i]) || has(img.id, words[i]) {
        assert forall|i: int| 0 <= i < l.len() implies text::holds(
            text::lowercase(tag),
            #[trigger] l[i],
        ) || text::holds(text::lowercase(img.id), l[i]) by {
            assert(has(tag, words[i]) || has(img.id, words[i]));
        }
    }
    assert(img.repo_tags[0] == tag);
}

/* ---------------- order ---------------- */

proof fn not_both(a: Seq<char>, b: Seq<char>)
    ensures
        !(text::text_less(a, b) && text::text_less(b, a)),
{
    if text::text_less(a, b) && text::text_less(b, a) {
        text::less_is_transitive(a, b, a);
        text::less_is_strict(a);
    }
    text::less_is_strict(a);
}

/// The containers are shown by name from A to Z, or from Z to A; by image likewise; and by the
/// time at which they were created from the oldest on, or from the newest on.
pub proof fn containers_are_in_order(m: ContainersModel, i: int, j: int)
    requires
        0 <= i < j < m.visible().len(),
    ensures
        ({
            let a = m.rows[m.visible()[i]];
            let b = m.rows[m.visible()[j]];
            &&& m.sort_key == ContainerSort::Name && a.names is Some && b.names is Some
                && a.names->0.len() > 0 && b.names->0.len() > 0 ==> {
                &&& m.sort_asc ==> !text::text_less(
                    text::lowercase(b.names->0[0]),
                    text::lowercase(a.names->0[0]),
                )
                &&& !m.sort_asc ==> !text::text_less(
                    text::lowercase(a.names->0[0]),
                    text::lowercase(b.names->0[0]),
                )
            }
            &&& m.sort_key == ContainerSort::Image && a.image is Some && b.image is Some ==> {
                &&& m.sort_asc ==> !text::text_less(
                    text::lowercase(b.image->0),
                    text::lowercase(a.image->0),
                )
                &&& !m.sort_asc ==> !text::text_less(
                    text::lowercase(a.image->0),
                    text::lowercase(b.image->0),
                )
            }
            &&& m.sort_key == ContainerSort::Created && a.created is Some && b.created is Some ==> {
                &&& m.sort_asc ==> a.created->0 <= b.created->0
                &&& !m.sort_asc ==> a.created->0 >= b.created->0
            }
        }),
{
    crate::order::arranged_is_sorted(m.keep(), m.keys(), m.sort_asc);
    crate::order::arranged_in_range(m.keep(), m.keys(), m.sort_asc);
    let x = m.visible()[i];
    let y = m.visible()[j];
    let a = m.rows[x];
    let b = m.rows[y];
    not_both(text::lowercase(a.name()), text::lowercase(b.name()));
    not_both(text::lowercase(a.image_text()), text::lowercase(b.image_text()));
    text::less_is_strict(text::lowercase(a.name()));
    text::less_is_strict(text::lowercase(a.image_text()));
    assert(m.keys()[x] == a.sort_value(m.sort_key));
    assert(m.keys()[y] == b.sort_value(m.sort_key));
}

/// The images are shown by size or by the time at which they were created, from the smallest or
/// the oldest on, or the other way round.
pub proof fn images_are_in_order(m: ImagesModel, i: int, j: int)
    requires
        0 <= i < j < m.visible().len(),
    ensures
        ({
            let a = m.rows[m.visible()[i]];
            let b = m.rows[m.visible()[j]];
            &&& m.sort_key == ImageSort::Size && m.sort_asc ==> a.size <= b.size
            &&& m.sort_key == ImageSort::Size && !m.sort_asc ==> a.size >= b.size
            &&& m.sort_key == ImageSort::Created && m.sort_asc ==> a.created <= b.created
            &&& m.sort_key == ImageSort::Created && !m.sort_asc ==> a.created >= b.created
        }),
{
    crate::order::arranged_is_sorted(m.keep(), m.keys(), m.sort_asc);
    crate::order::arranged_in_range(m.keep(), m.keys(), m.sort_asc);
    let x = m.visible()[i];
    let y = m.visible()[j];
    assert(m.keys()[x] == m.rows[x].sort_value(m.sort_key));
    assert(m.keys()[y] == m.rows[y].sort_value(m.sort_key));
}

/// The networks are shown by name, driver or scope, from A to Z or from Z to A.
pub proof fn networks_are_in_order(m: NetworksModel, i: int, j: int)
    requires
        0 <= i < j < m.visible().len(),
    ensures
        ({
            let a = m.rows[m.visible()[i]];
            let b = m.rows[m.visible()[j]];
            let (s, t) = if m.sort_key == NetworkSort::Name {
                (a.name, b.name)
            } else if m.sort_key == NetworkSort::Driver {
                (a.driver, b.driver)
            } else {
                (a.scope, b.scope)
            };
            &&& m.sort_asc ==> !text::text_less(text::lowercase(t), text::lowercase(s))
            &&& !m.sort_asc ==> !text::text_less(text::lowercase(s), text::lowercase(t))
        }),
{
    crate::order::arranged_is_sorted(m.keep(), m.keys(), m.sort_asc);
    crate::order::arranged_in_range(m.keep(), m.keys(), m.sort_asc);
    let x = m.visible()[i];
    let y = m.visible()[j];
    let a = m.rows[x];
    let b = m.rows[y];
    not_both(text::lowercase(a.name), text::lowercase(b.name));
    not_both(text::lowercase(a.driver), text::lowercase(b.driver));
    not_both(text::lowercase(a.scope), text::lowercase(b.scope));
    text::less_is_strict(text::lowercase(a.name));
    text::less_is_strict(text::lowercase(a.driver));
    text::less_is_strict(text::lowercase(a.scope));
    assert(m.keys()[x] == a.sort_value(m.sort_key));
    assert(m.keys()[y] == b.sort_value(m.sort_key));
}

/// The volumes are shown by name, driver or mountpoint, in the order of the texts or against it.
pub proof fn volumes_are_in_order(m: VolumesModel, i: int, j: int)
    requires
        0 <= i < j < m.visible().len(),
        m.sort_key != VolumeSort::CreatedAt,
    ensures
        ({
            let a: VolumeModel = m.rows[m.visible()[i]];
            let b: VolumeModel = m.rows[m.visible()[j]];
            let (s, t) = if m.sort_key == VolumeSort::Name {
                (a.name, b.name)
            } else if m.sort_key == VolumeSort::Driver {
                (a.driver, b.driver)
            } else {
                (a.mountpoint, b.mountpoint)
            };
            &&& m.sort_asc ==> !text::text_less(t, s)
            &&& !m.sort_asc ==> !text::text_less(s, t)
        }),
{
    crate::order::arranged_is_sorted(m.keep(), m.keys(), m.sort_asc);
    crate::order::arranged_in_range(m.keep(), m.keys(), m.sort_asc);
    let x = m.visible()[i];
    let y = m.visible()[j];
    let a = m.rows[x];
    let b = m.rows[y];
    not_both(a.name, b.name);
    not_both(a.driver, b.driver);
    not_both(a.mountpoint, b.mountpoint);
    text::less_is_strict(a.name);
    text::less_is_strict(a.driver);
    text::less_is_strict(a.mountpoint);
    assert(m.keys()[x] == a.sort_value(m.sort_key));
    assert(m.keys()[y] == b.sort_value(m.sort_key));
}

/// The key to sort by goes on from the name to the image, the state, the time and the ports, and
/// from there to the name.
pub proof fn sort_keys_of_containers(m: ContainersModel)
    requires
        crate::laws::keys::bare_containers(m),
    ensures
        ({
            let next = m.on_key(
                crate::laws::keys::pressed(crate::key::KeyCode::Char('o')),
            ).0.sort_key;
            &&& m.sort_key == ContainerSort::Name ==> next == ContainerSort::Image
            &&& m.sort_key == ContainerSort::Image ==> next == ContainerSort::State
            &&& m.sort_key == ContainerSort::State ==> next == ContainerSort::Created
            &&& m.sort_key == ContainerSort::Created ==> next == ContainerSort::Ports
            &&& m.sort_key == ContainerSort::Ports ==> next == ContainerSort::Name
        }),
{
}

/// By state, the containers are shown in the order of the states' names.
pub proof fn containers_are_in_order_of_state(
    m: ContainersModel,
    i: int,
    j: int,
)
    requires
        0 <= i < j < m.visible().len(),
        m.sort_key == ContainerSort::State,
        m.rows[m.visible()[i]].state is Some,
        m.rows[m.visible()[j]].state is Some,
    ensures
        ({
            let s = crate::laws::lists::state_name(m.rows[m.visible()[i]].state->0);
            let t = crate::laws::lists::state_name(m.rows[m.visible()[j]].state->0);
            &&& m.sort_asc ==> !text::text_less(text::lowercase(t), text::lowercase(s))
            &&& !m.sort_asc ==> !text::text_less(text::lowercase(s), text::lowercase(t))
        }),
{
    crate::order::arranged_is_sorted(m.keep(), m.keys(), m.sort_asc);
    crate::order::arranged_in_range(m.keep(), m.keys(), m.sort_asc);
    let x = m.visible()[i];
    let y = m.visible()[j];
    let s = crate::laws::lists::state_name(m.rows[x].state->0);
    let t = crate::laws::lists::state_name(m.rows[y].state->0);
    not_both(text::lowercase(s), text::lowercase(t));
    text::less_is_strict(text::lowercase(s));
    assert(m.keys()[x] == m.rows[x].sort_value(m.sort_key));
    assert(m.keys()[y] == m.rows[y].sort_value(m.sort_key));
}

/// A fresh list takes the place of the old one; what is searched for, the order and the marks stay,
/// and so does the cursor while its row is there.
pub proof fn fresh_list_is_taken(
    m: ContainersModel,
    rows: Seq<crate::containers::summary::ContainerModel>,
    now: u64,
)
    ensures
        ({
            let n = m.refreshed(rows, now);
            &&& n.rows == rows
            &&& n.query == m.query
            &&& n.sort_key == m.sort_key && n.sort_asc == m.sort_asc
            &&& n.selected_ids == m.selected_ids
            &&& n.queue == m.queue
            &&& n.last_refresh == now
            &&& m.selected matches Some(i) ==> i < n.visible().len() ==> n.selected == Some(i)
        }),
{
    let a = ContainersModel { rows, last_refresh: now, ..m };
    let b = m.refreshed(rows, now);
    assert(a.keep() =~= b.keep() && a.keys() =~= b.keys());
}

/// While the search line of the containers is open, what is typed is what is searched for.
pub proof fn containers_are_searched(m: ContainersModel, c: char)
    requires
        m.shell is None,
        m.popup is None,
        m.searching,
    ensures
        ({
            let n = m.on_key(crate::laws::keys::pressed(crate::key::KeyCode::Char(c))).0;
            n.query == m.query.push(c) && n.searching && n.rows == m.rows
        }),
        !m.on_key(crate::laws::keys::pressed(crate::key::KeyCode::Enter)).0.searching,
        m.on_key(crate::laws::keys::pressed(crate::key::KeyCode::Enter)).0.query == m.query,
        m.on_key(crate::laws::keys::pressed(crate::key::KeyCode::Esc)).0.query.len() == 0,
{
}

/// By tag, the images are shown from A to Z or from Z to A.
pub proof fn images_are_in_order_of_tags(
    m: ImagesModel,
    i: int,
    j: int,
    s: Seq<char>,
    t: Seq<char>,
)
    requires
        0 <= i < j < m.visible().len(),
        m.sort_key == ImageSort::Repo,
        m.rows[m.visible()[i]].repo_tags == seq![s],
        m.rows[m.visible()[j]].repo_tags == seq![t],
        s.len() <= 42,
        t.len() <= 42,
    ensures
        m.sort_asc ==> !text::text_less(text::lowercase(t), text::lowercase(s)),
        !m.sort_asc ==> !text::text_less(text::lowercase(s), text::lowercase(t)),
{
    crate::order::arranged_is_sorted(m.keep(), m.keys(), m.sort_asc);
    crate::order::arranged_in_range(m.keep(), m.keys(), m.sort_asc);
    let x = m.visible()[i];
    let y = m.visible()[j];
    not_both(text::lowercase(s), text::lowercase(t));
    text::less_is_strict(text::lowercase(s));
    assert(m.keys()[x] == m.rows[x].sort_value(m.sort_key));
    assert(m.keys()[y] == m.rows[y].sort_value(m.sort_key));
}

/// By the time at which they were made, the volumes are shown in the order of the times' texts.
pub proof fn volumes_are_in_order_of_time(
    m: VolumesModel,
    i: int,
    j: int,
    s: Seq<char>,
    t: Seq<char>,
)
    requires
        0 <= i < j < m.visible().len(),
        m.sort_key == VolumeSort::CreatedAt,
        m.rows[m.visible()[i]].created_at == Some(s),
        m.rows[m.visible()[j]].created_at == Some(t),
    ensures
        m.sort_asc ==> !text::text_less(t, s),
        !m.sort_asc ==> !text::text_less(s, t),
{
    crate::order::arranged_is_sorted(m.keep(), m.keys(), m.sort_asc);
    crate::order::arranged_in_range(m.keep(), m.keys(), m.sort_asc);
    let x = m.visible()[i];
    let y = m.visible()[j];
    not_both(s, t);
    text::less_is_strict(s);
    assert(m.keys()[x] == m.rows[x].sort_value(m.sort_key));
    assert(m.keys()[y] == m.rows[y].sort_value(m.sort_key));
}

} // verus!
