//! What holds of the registries over any series of starts and stops.
//!
//! The statements here are about the answers that the manager's functions
//! give, as their contracts describe them. None of them looks into a function.

use crate::text::{
    decimal, is_digit, lemma_decimal_digits, lemma_parse_decimal, lemma_span_outside_is, occurs_at,
    split, CharSet,
};
use crate::tunnel::{
    is_local_id, is_remote_id, local_start_is, local_tunnel_id, remote_port_of, remote_start_is,
    remote_tunnel_id, route_is, stop_is, InboundRoute, LocalStart, Registries, RemoteStart,
    StopOutcome,
};
use vstd::multiset::Multiset;
use vstd::prelude::*;

verus! {

/// Starting a local forwarding that is registered starts nothing: the answer
/// is the id that is registered, and no listener is asked for, whatever address
/// and host are given.
pub proof fn lemma_local_start_is_idempotent(
    ids: Set<Seq<char>>,
    bind_address: Seq<char>,
    local_port: u16,
    remote_host: Seq<char>,
    remote_port: u16,
    start: LocalStart,
)
    requires
        ids.contains(local_tunnel_id(local_port, remote_port)),
        local_start_is(ids, bind_address, local_port, remote_host, remote_port, start),
    ensures
        start matches LocalStart::AlreadyActive { tunnel_id } && tunnel_id@ == local_tunnel_id(
            local_port,
            remote_port,
        ),
{
}

/// Starting a remote forwarding whose port is registered starts nothing: the
/// registry stays as it is and the server is not asked again, whatever address
/// and target are given, and the answer is the id of the forwarding that is
/// registered.
pub proof fn lemma_remote_start_is_idempotent(
    before: Map<u16, (String, u16, String)>,
    after: Map<u16, (String, u16, String)>,
    bind_address: String,
    remote_port: u16,
    local_host: String,
    local_port: u16,
    start: RemoteStart,
)
    requires
        before.contains_key(remote_port),
        remote_start_is(before, after, bind_address, remote_port, local_host, local_port, start),
    ensures
        after == before,
        start matches RemoteStart::AlreadyActive { tunnel_id } && tunnel_id@ == remote_tunnel_id(
            remote_port,
            before[remote_port].1,
        ),
{
}

/// Of two requests to start a remote forwarding on one port, with nothing
/// between them, the second starts nothing: the target of the first stays
/// registered, and the id that the second is answered with is the id that the
/// first was answered with, whatever target the second names.
pub proof fn lemma_remote_start_twice(
    before: Map<u16, (String, u16, String)>,
    between: Map<u16, (String, u16, String)>,
    after: Map<u16, (String, u16, String)>,
    remote_port: u16,
    first: (String, String, u16, RemoteStart),
    second: (String, String, u16, RemoteStart),
)
    requires
        remote_start_is(before, between, first.0, remote_port, first.1, first.2, first.3),
        remote_start_is(between, after, second.0, remote_port, second.1, second.2, second.3),
    ensures
        second.3 is AlreadyActive,
        after == between,
        between.contains_key(remote_port),
        first.3 is Request ==> after[remote_port] == (first.1, first.2, first.0),
        second.3->AlreadyActive_tunnel_id@ == match first.3 {
            RemoteStart::AlreadyActive { tunnel_id } => tunnel_id@,
            RemoteStart::Request { tunnel_id, .. } => tunnel_id@,
        },
{
}

/// Stopping a tunnel that is not registered changes nothing in either
/// registry, and stops no local forwarding.
pub proof fn lemma_stop_of_unknown_changes_nothing(
    before: Registries,
    after: Registries,
    has_session: bool,
    tunnel_id: Seq<char>,
    bind_address_override: Option<String>,
    outcome: StopOutcome,
)
    requires
        stop_is(before, after, has_session, tunnel_id, bind_address_override, outcome),
        !before.local.contains_key(tunnel_id),
        remote_port_of(tunnel_id) matches Some(port) ==> !before.remote.contains_key(port),
    ensures
        after == before,
        !(outcome is LocalStopped),
{
    assert(after.local =~= before.local);
    assert(after.remote =~= before.remote);
}

/// Stopping a tunnel a second time changes nothing.
pub proof fn lemma_stop_twice(
    before: Registries,
    between: Registries,
    after: Registries,
    tunnel_id: Seq<char>,
    first: (bool, Option<String>, StopOutcome),
    second: (bool, Option<String>, StopOutcome),
)
    requires
        stop_is(before, between, first.0, tunnel_id, first.1, first.2),
        stop_is(between, after, second.0, tunnel_id, second.1, second.2),
    ensures
        after == between,
        !(second.2 is LocalStopped),
{
    assert(after.local =~= between.local);
    assert(after.remote =~= between.remote);
}

/// After a local forwarding has been stopped its id is free: it is not
/// registered, and a request to start it again asks for a new listener.
pub proof fn lemma_stopped_local_can_start_again(
    before: Registries,
    after: Registries,
    has_session: bool,
    bind_address_override: Option<String>,
    outcome: StopOutcome,
    bind_address: Seq<char>,
    local_port: u16,
    remote_host: Seq<char>,
    remote_port: u16,
    start: LocalStart,
)
    requires
        stop_is(
            before,
            after,
            has_session,
            local_tunnel_id(local_port, remote_port),
            bind_address_override,
            outcome,
        ),
        local_start_is(
            after.local.dom(),
            bind_address,
            local_port,
            remote_host,
            remote_port,
            start,
        ),
    ensures
        !after.local.contains_key(local_tunnel_id(local_port, remote_port)),
        start is Bind,
{
    lemma_local_id_is_local(local_port, remote_port);
}

/// For every port that the server forwards from, the traffic goes to the
/// target that is registered for the port, or, if none is, nowhere.
pub proof fn lemma_route_follows_registry(
    remote: Map<u16, (String, u16, String)>,
    connected_port: u32,
    route: InboundRoute,
)
    requires
        route_is(remote, connected_port, route),
    ensures
        route is Dial <==> connected_port <= 0xffff && remote.contains_key(connected_port as u16),
        route is Decline <==> !(connected_port <= 0xffff && remote.contains_key(
            connected_port as u16,
        )),
{
}

/// A request to start a local forwarding, with whether the listener that was
/// asked for could be bound; or a request to stop a tunnel.
pub ghost enum LocalStep {
    Start { local_port: u16, remote_port: u16, bound: bool },
    Stop { tunnel_id: Seq<char> },
}

/// The ids of the local forwardings that are registered, and the accept loops
/// that run, each by the id of its forwarding.
pub ghost struct LocalWorld {
    pub registered: Set<Seq<char>>,
    pub running: Multiset<Seq<char>>,
}

/// The world after one step. A start on an id that is registered does nothing.
/// Any other start asks for a listener; if that is bound, an accept loop is
/// spawned and registered. A stop on the id of a local forwarding takes the id
/// out of the registry, and ends the accept loop that was registered under it,
/// if one was.
pub open spec fn local_world_next(world: LocalWorld, step: LocalStep) -> LocalWorld {
    match step {
        LocalStep::Start { local_port, remote_port, bound } => {
            let id = local_tunnel_id(local_port, remote_port);
            if !world.registered.contains(id) && bound {
                LocalWorld {
                    registered: world.registered.insert(id),
                    running: world.running.insert(id),
                }
            } else {
                world
            }
        },
        LocalStep::Stop { tunnel_id } => {
            if is_local_id(tunnel_id) {
                LocalWorld {
                    registered: world.registered.remove(tunnel_id),
                    running: if world.registered.contains(tunnel_id) {
                        world.running.remove(tunnel_id)
                    } else {
                        world.running
                    },
                }
            } else {
                world
            }
        },
    }
}

/// The world after a series of steps from an empty registry.
pub open spec fn local_world_after(steps: Seq<LocalStep>) -> LocalWorld
    decreases steps.len(),
{
    if steps.len() == 0 {
        LocalWorld { registered: Set::empty(), running: Multiset::empty() }
    } else {
        local_world_next(local_world_after(steps.drop_last()), steps.last())
    }
}

/// The world's start is the manager's: a listener is asked for exactly when the
/// id is not registered.
pub proof fn lemma_world_start_is_managers(
    ids: Set<Seq<char>>,
    bind_address: Seq<char>,
    local_port: u16,
    remote_host: Seq<char>,
    remote_port: u16,
    start: LocalStart,
)
    requires
        local_start_is(ids, bind_address, local_port, remote_host, remote_port, start),
    ensures
        start is Bind <==> !ids.contains(local_tunnel_id(local_port, remote_port)),
{
}

/// The world's stop is the manager's: the registry loses the id of a local
/// forwarding, and an accept loop is ended exactly when that id was registered.
pub proof fn lemma_world_stop_is_managers(
    before: Registries,
    after: Registries,
    running: Multiset<Seq<char>>,
    has_session: bool,
    tunnel_id: Seq<char>,
    bind_address_override: Option<String>,
    outcome: StopOutcome,
)
    requires
        stop_is(before, after, has_session, tunnel_id, bind_address_override, outcome),
    ensures
        after.local.dom() == local_world_next(
            LocalWorld { registered: before.local.dom(), running },
            LocalStep::Stop { tunnel_id },
        ).registered,
        outcome is LocalStopped <==> is_local_id(tunnel_id) && before.local.contains_key(
            tunnel_id,
        ),
{
}

/// After every series of starts and stops, the accept loops that run are
/// those of the local forwardings that are registered: one for each id in the
/// registry, and no other.
pub proof fn lemma_registered_are_running(steps: Seq<LocalStep>, tunnel_id: Seq<char>)
    ensures
        local_world_after(steps).running.count(tunnel_id) == if local_world_after(
            steps,
        ).registered.contains(tunnel_id) {
            1nat
        } else {
            0nat
        },
    decreases steps.len(),
{
    if steps.len() > 0 {
        lemma_registered_are_running(steps.drop_last(), tunnel_id);
        match steps.last() {
            LocalStep::Start { local_port, remote_port, bound } => {
                lemma_registered_are_running(
                    steps.drop_last(),
                    local_tunnel_id(local_port, remote_port),
                );
            },
            LocalStep::Stop { tunnel_id: stopped } => {
                lemma_registered_are_running(steps.drop_last(), stopped);
            },
        }
    }
}

/// A request to start a remote forwarding, with whether the server granted
/// what it was asked; or a request to stop one, with a session at hand, which
/// the server obeys.
pub ghost enum RemoteStep {
    Start { remote_port: u16, granted: bool },
    Stop { remote_port: u16 },
}

/// The remote ports that are registered, and those on which the server
/// listens for this session.
pub ghost struct RemoteWorld {
    pub registered: Set<u16>,
    pub listening: Set<u16>,
}

/// The world after one step. A start on a port that is registered does
/// nothing. Any other start registers the port and asks the server; if the
/// server refuses, the port is taken out again. A stop takes the port out and
/// tells the server to stop listening.
pub open spec fn remote_world_next(world: RemoteWorld, step: RemoteStep) -> RemoteWorld {
    match step {
        RemoteStep::Start { remote_port, granted } => {
            if !world.registered.contains(remote_port) && granted {
                RemoteWorld {
                    registered: world.registered.insert(remote_port),
                    listening: world.listening.insert(remote_port),
                }
            } else if !world.registered.contains(remote_port) {
                RemoteWorld {
                    registered: world.registered.insert(remote_port).remove(remote_port),
                    listening: world.listening,
                }
            } else {
                world
            }
        },
        RemoteStep::Stop { remote_port } => RemoteWorld {
            registered: world.registered.remove(remote_port),
            listening: world.listening.remove(remote_port),
        },
    }
}

/// The world after a series of steps from an empty registry.
pub open spec fn remote_world_after(steps: Seq<RemoteStep>) -> RemoteWorld
    decreases steps.len(),
{
    if steps.len() == 0 {
        RemoteWorld { registered: Set::empty(), listening: Set::empty() }
    } else {
        remote_world_next(remote_world_after(steps.drop_last()), steps.last())
    }
}

/// After every series of starts and stops, the remote ports that are
/// registered are those on which the server listens for this session.
pub proof fn lemma_registered_are_listening(steps: Seq<RemoteStep>)
    ensures
        remote_world_after(steps).registered == remote_world_after(steps).listening,
    decreases steps.len(),
{
    if steps.len() > 0 {
        lemma_registered_are_listening(steps.drop_last());
    }
}

/// The pieces of a text that holds no separator: the text itself.
proof fn lemma_split_whole(s: Seq<char>, sep: char)
    requires
        forall|i: int| 0 <= i < s.len() ==> s[i] != sep,
    ensures
        split(s, sep) == seq![s],
{
    lemma_span_outside_is(s, CharSet::Only(sep), s.len() as int);
}

/// The pieces of a text whose first separator stands at `n`: what is before
/// it, and the pieces of what is after it.
proof fn lemma_split_first(s: Seq<char>, sep: char, n: int)
    requires
        0 <= n < s.len(),
        s[n] == sep,
        forall|i: int| 0 <= i < n ==> s[i] != sep,
    ensures
        split(s, sep) == seq![s.take(n)] + split(s.skip(n + 1), sep),
{
    lemma_span_outside_is(s, CharSet::Only(sep), n);
}

/// The id of a local forwarding is taken for one by `stop_tunnel`.
pub proof fn lemma_local_id_is_local(local_port: u16, remote_port: u16)
    ensures
        is_local_id(local_tunnel_id(local_port, remote_port)),
{
    let id = local_tunnel_id(local_port, remote_port);
    assert(id.subrange(0, "local:"@.len() as int) =~= "local:"@);
}

/// The id of a remote forwarding names its remote port to `stop_tunnel`.
pub proof fn lemma_remote_id_names_port(remote_port: u16, local_port: u16)
    ensures
        is_remote_id(remote_tunnel_id(remote_port, local_port)),
        remote_port_of(remote_tunnel_id(remote_port, local_port)) == Some(remote_port),
{
    let id = remote_tunnel_id(remote_port, local_port);
    let first = decimal(remote_port as nat);
    let second = decimal(local_port as nat);
    reveal_strlit("remote:");
    reveal_strlit("local:");
    reveal_strlit(":");
    lemma_decimal_digits(remote_port as nat);
    lemma_decimal_digits(local_port as nat);
    assert(id.subrange(0, 7) =~= "remote:"@);
    assert(id[0] == 'r');
    assert("local:"@[0] == 'l');
    assert(!occurs_at(id, "local:"@, 0)) by {
        if occurs_at(id, "local:"@, 0) {
            assert(id.subrange(0, 6)[0] == 'l');
        }
    }
    assert(id[6] == ':');
    lemma_split_first(id, ':', 6);
    let rest = id.skip(7);
    assert(rest =~= first + ":"@ + second);
    assert(id.take(6) =~= seq!['r', 'e', 'm', 'o', 't', 'e']);
    assert forall|i: int| 0 <= i < first.len() implies rest[i] != ':' by {
        assert(is_digit(first[i]));
    }
    assert(rest[first.len() as int] == ':');
    lemma_split_first(rest, ':', first.len() as int);
    assert(rest.take(first.len() as int) =~= first);
    assert(rest.skip(first.len() as int + 1) =~= second);
    assert forall|i: int| 0 <= i < second.len() implies second[i] != ':' by {
        assert(is_digit(second[i]));
    }
    lemma_split_whole(second, ':');
    assert(split(id, ':') =~= seq![id.take(6), first, second]);
    lemma_parse_decimal(remote_port as nat, 0xffff);
}

/// Stopping a remote forwarding by the id under which it was started takes its
/// port out of the registry, and with a session at hand the server is told to
/// stop listening where it was asked to listen, unless another address is
/// given.
pub proof fn lemma_stop_of_started_remote(
    before: Registries,
    after: Registries,
    remote_port: u16,
    local_port: u16,
    outcome: StopOutcome,
)
    requires
        before.remote.contains_key(remote_port),
        stop_is(
            before,
            after,
            true,
            remote_tunnel_id(remote_port, local_port),
            None,
            outcome,
        ),
    ensures
        !after.remote.contains_key(remote_port),
        outcome matches StopOutcome::CancelRemote { bind_address, port } && port == remote_port
            && bind_address@ == before.remote[remote_port].2@,
{
    lemma_remote_id_names_port(remote_port, local_port);
}

} // verus!
