//! Reaching the engine: where its socket is looked for, and the text of what it logs.

use crate::output::{lossy, lossy_text};
use crate::text;
use vstd::prelude::*;

verus! {

pub open spec fn default_socket() -> Seq<char> {
    "/var/run/docker.sock"@
}

/// The socket that `DOCKER_HOST` names: a path, or a path behind `unix://`. Anything else names
/// none.
pub open spec fn named_socket(host: Seq<char>) -> Option<Seq<char>> {
    if text::begins(host, "unix://"@) {
        Some(host.skip("unix://"@.len() as int))
    } else if text::begins(host, "/"@) {
        Some(host)
    } else {
        None
    }
}

/// `DOCKER_HOST` comes first, and nothing stands in for an engine that it names. So where it is set
/// to something that is no socket, such as an address, there is none. Empty, it is as good as
/// unset.
pub open spec fn is_elsewhere(host: Option<Seq<char>>) -> bool {
    host matches Some(h) && h.len() > 0 && named_socket(h) is None
}

/// The socket of a user whose engine runs without root.
pub open spec fn user_socket(uid: u32) -> Seq<char> {
    "/run/user/"@ + text::decimal(uid as nat) + "/docker.sock"@
}

/// Where the socket is looked for, in this order: the one that `DOCKER_HOST` names, the user's,
/// the system's. Nowhere, if the engine is elsewhere.
pub open spec fn candidates(host: Option<Seq<char>>, uid: Option<u32>) -> Seq<Seq<char>> {
    let named = match host {
        Some(h) => match named_socket(h) {
            Some(p) => seq![p],
            None => Seq::empty(),
        },
        None => Seq::empty(),
    };
    let own = match uid {
        Some(u) => seq![user_socket(u)],
        None => Seq::empty(),
    };
    if is_elsewhere(host) {
        Seq::empty()
    } else {
        named + own + seq![default_socket()]
    }
}

/// The socket that is taken: the first of the candidates that is there.
pub open spec fn first_there(paths: Seq<Seq<char>>, there: Seq<bool>) -> Option<int>
    decreases paths.len(),
{
    if paths.len() == 0 {
        None
    } else {
        match first_there(paths.drop_last(), there) {
            Some(i) => Some(i),
            None => if there[paths.len() - 1] {
                Some(paths.len() - 1)
            } else {
                None
            },
        }
    }
}

pub open spec fn no_socket() -> Seq<char> {
    "No Docker socket found. Tried DOCKER_HOST, /run/user/$UID/docker.sock and /var/run/docker.sock"@
}

/// What is said of a `DOCKER_HOST` that is no socket.
pub open spec fn no_socket_named(host: Seq<char>) -> Seq<char> {
    "DOCKER_HOST names no socket: "@ + host
}

fn names_no_socket(host: &str) -> (r: bool)
    ensures
        r == is_elsewhere(Some(host@)),
{
    !host.is_empty() && !text::starts_with(host, "unix://") && !text::starts_with(host, "/")
}

/// Where the socket is looked for, in order. `uid` is absent where users have no number.
pub fn socket_candidates(host: Option<String>, uid: Option<u32>) -> (r: Vec<String>)
    ensures
        r.deep_view() == candidates(host.deep_view(), uid),
{
    let mut out: Vec<String> = Vec::new();
    if let Some(h) = &host {
        if names_no_socket(h.as_str()) {
            assert(out.deep_view() == candidates(host.deep_view(), uid));
            return out;
        }
        if let Some(path) = text::strip_prefix(h.as_str(), "unix://") {
            text::push_text(&mut out, path);
        } else if text::starts_with(h.as_str(), "/") {
            text::push_text(&mut out, h.clone());
        }
    }
    let ghost named = out.deep_view();
    if let Some(u) = uid {
        let own = text::cat3("/run/user/", text::number(u as u64).as_str(), "/docker.sock");
        text::push_text(&mut out, own);
    }
    text::push_text(&mut out, "/var/run/docker.sock".to_owned());
    assert(out.deep_view() == candidates(host.deep_view(), uid));
    out
}

proof fn first_there_grows(paths: Seq<Seq<char>>, there: Seq<bool>, i: int)
    requires
        0 <= i <= paths.len(),
        first_there(paths.take(i), there) is Some,
    ensures
        first_there(paths, there) == first_there(paths.take(i), there),
    decreases paths.len(),
{
    if i < paths.len() {
        assert(paths.drop_last().take(i) == paths.take(i));
        first_there_grows(paths.drop_last(), there, i);
    } else {
        assert(paths.take(i) == paths);
    }
}

/// Takes the first of the candidates that is there, or says that there is none. `there` tells of
/// each of [`socket_candidates`] whether it is.
pub fn resolve_docker_socket_path(host: Option<String>, uid: Option<u32>, there: &Vec<bool>) -> (r:
    Result<String, String>)
    requires
        there@.len() == candidates(host.deep_view(), uid).len(),
    ensures
        match r {
            Ok(p) => first_there(candidates(host.deep_view(), uid), there@) matches Some(i) && p@
                == candidates(host.deep_view(), uid)[i],
            Err(e) => first_there(candidates(host.deep_view(), uid), there@) is None && e@ == (
            if is_elsewhere(host.deep_view()) {
                no_socket_named(host.deep_view()->0)
            } else {
                no_socket()
            }),
        },
        is_elsewhere(host.deep_view()) ==> r is Err,
{
    if let Some(h) = &host {
        if names_no_socket(h.as_str()) {
            return Err(text::cat("DOCKER_HOST names no socket: ", h.as_str()));
        }
    }
    let ghost hv = host.deep_view();
    let paths = socket_candidates(host, uid);
    let ghost pv = paths.deep_view();
    let mut i: usize = 0;
    assert(pv.take(0) == Seq::<Seq<char>>::empty());
    while i < paths.len()
        invariant
            i <= paths@.len(),
            there@.len() == paths@.len(),
            pv == paths.deep_view(),
            pv == candidates(hv, uid),
            !is_elsewhere(hv),
            hv == host.deep_view(),
            first_there(pv.take(i as int), there@) is None,
        decreases paths@.len() - i,
    {
        assert(pv.take(i + 1).drop_last() == pv.take(i as int));
        if there[i] {
            proof {
                first_there_grows(pv, there@, i + 1);
                assert(pv[i as int] == paths@[i as int]@);
            }
            return Ok(paths[i].clone());
        }
        i += 1;
    }
    assert(pv.take(pv.len() as int) == pv);
    Err(
        "No Docker socket found. Tried DOCKER_HOST, /run/user/$UID/docker.sock and /var/run/docker.sock".to_owned(),
    )
}

/// The socket that is taken is there, and none that comes before it is.
pub proof fn earlier_sockets_win(paths: Seq<Seq<char>>, there: Seq<bool>)
    requires
        there.len() == paths.len(),
    ensures
        match first_there(paths, there) {
            Some(i) => 0 <= i < paths.len() && there[i] && forall|j: int| 0 <= j < i ==> !there[j],
            None => forall|j: int| 0 <= j < paths.len() ==> !there[j],
        },
    decreases paths.len(),
{
    if paths.len() > 0 {
        earlier_sockets_win(paths.drop_last(), there.drop_last());
        same_there(paths.drop_last(), there.drop_last(), there);
        assert forall|j: int| 0 <= j < there.len() - 1 implies there.drop_last()[j] == there[j] by {
        }
    }
}

proof fn same_there(paths: Seq<Seq<char>>, a: Seq<bool>, b: Seq<bool>)
    requires
        a.len() >= paths.len(),
        b.len() >= paths.len(),
        forall|j: int| 0 <= j < paths.len() ==> a[j] == b[j],
    ensures
        first_there(paths, a) == first_there(paths, b),
    decreases paths.len(),
{
    if paths.len() > 0 {
        same_there(paths.drop_last(), a, b);
    }
}

/// A socket that `DOCKER_HOST` names and that is there is taken, whatever else is there.
pub proof fn named_socket_comes_first(host: Seq<char>, uid: Option<u32>, there: Seq<bool>)
    requires
        named_socket(host) is Some,
        there.len() == candidates(Some(host), uid).len(),
        there[0],
    ensures
        first_there(candidates(Some(host), uid), there) == Some(0int),
        candidates(Some(host), uid)[0] == named_socket(host)->0,
{
    earlier_sockets_win(candidates(Some(host), uid), there);
}

/// Where `DOCKER_HOST` is unset or empty, or names a socket, the system's socket is still looked for;
/// where it names an engine elsewhere, no socket is.
pub proof fn no_socket_stands_in(host: Option<Seq<char>>, uid: Option<u32>, there: Seq<bool>)
    ensures
        is_elsewhere(host) ==> first_there(candidates(host, uid), there) is None,
        !is_elsewhere(host) ==> candidates(host, uid).last() == default_socket(),
{
}

/// What the engine wrote to the log of a container: bytes that it took from one of the
/// container's outputs, or something else, which has no text.
pub fn log_text(message: Option<&[u8]>) -> (r: String)
    ensures
        r@ == match message {
            Some(m) => lossy(m@),
            None => Seq::empty(),
        },
{
    match message {
        Some(m) => lossy_text(m),
        None => String::new(),
    }
}

} // verus!
