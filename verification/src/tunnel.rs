//! The registry of port forwardings and the decisions around it.
//!
//! A local forwarding listens on this machine and sends what arrives through the
//! session; a remote forwarding has the server listen and sends what arrives
//! there back to a target on this side. The manager keeps one registry for each
//! kind. It decides what has to be done on the network and is told how that
//! went; the network itself is the caller's.

use crate::text::{
    decimal, occurs_at, parse_number, parse_unsigned, push_decimal, split, split_on, starts_with,
    to_chars,
};
use std::collections::HashMap;
use tokio::sync::broadcast::Sender;
use tokio::task::AbortHandle;
use vstd::prelude::*;
use vstd::string::*;

verus! {

/// tokio's handle by which a spawned task can be aborted.
#[verifier::external_type_specification]
#[verifier::external_body]
pub struct ExAbortHandle(tokio::task::AbortHandle);

/// The sending half of tokio's broadcast channel.
#[verifier::external_type_specification]
#[verifier::external_body]
#[verifier::reject_recursive_types(T)]
pub struct ExSender<T>(tokio::sync::broadcast::Sender<T>);

/// The capacity that a broadcast channel was made with: the number that was
/// asked for, not the number of slots that were allocated for it.
pub uninterp spec fn channel_capacity(tx: Sender<()>) -> nat;

/// `tokio::sync::broadcast::channel`, of which the sending half is kept: a new
/// channel, made with the capacity that is asked for. The call panics on a
/// capacity of zero or above half of `usize::MAX`, which the precondition
/// leaves out.
#[verifier::external_body]
fn broadcast_sender(capacity: usize) -> (tx: Sender<()>)
    requires
        0 < capacity <= usize::MAX / 2,
    ensures
        channel_capacity(tx) == capacity,
{
    tokio::sync::broadcast::channel(capacity).0
}

/// `Sender::send` of tokio's broadcast channel, with the unit value. Whether any
/// receiver was there to see it is not reported.
#[verifier::external_body]
fn broadcast_signal(tx: &Sender<()>) {
    let _ = tx.send(());
}

/// `AbortHandle::abort` of tokio. Nothing is claimed of the task.
#[verifier::external_body]
fn abort_task(handle: &AbortHandle) {
    handle.abort()
}

/// The capacity that the channel of a listener is made with: one signal.
pub const CANCEL_CHANNEL_CAPACITY: usize = 1;

/// The two handles by which a running local forwarding is stopped: one ends its
/// accept loop, the other tells every connection it has spawned to give up.
#[derive(Debug)]
pub struct LocalListener {
    pub abort: AbortHandle,
    pub cancel: Sender<()>,
}

/// A fresh channel on which a local forwarding's connections wait to be told to
/// give up, made with a capacity of one signal.
pub fn cancel_channel() -> (tx: Sender<()>)
    ensures
        channel_capacity(tx) == CANCEL_CHANNEL_CAPACITY,
{
    broadcast_sender(CANCEL_CHANNEL_CAPACITY)
}

/// Why a forwarding could not be started, or a connection through one failed.
#[derive(Debug)]
pub enum TunnelError {
    /// The local port is taken; the message names it, the process that holds it
    /// where that could be found, and a free port nearby where there is one.
    PortInUse { message: String },
    /// The local listener could not be bound for another reason.
    BindFailed { message: String },
    /// The server refused or failed the request to listen.
    RemoteForward { message: String },
    /// A channel for one connection could not be opened.
    ChannelOpen { message: String },
}

impl TunnelError {
    /// The text of the error.
    pub fn message(&self) -> (m: &String)
        ensures
            *m == match *self {
                TunnelError::PortInUse { message } => message,
                TunnelError::BindFailed { message } => message,
                TunnelError::RemoteForward { message } => message,
                TunnelError::ChannelOpen { message } => message,
            },
    {
        match self {
            TunnelError::PortInUse { message } => message,
            TunnelError::BindFailed { message } => message,
            TunnelError::RemoteForward { message } => message,
            TunnelError::ChannelOpen { message } => message,
        }
    }
}

/// A request to open a channel through the session to a host and port, with
/// the address that is named as the origin of the traffic.
#[derive(Debug, Clone)]
pub struct DirectTcpip {
    pub host: String,
    pub port: u32,
    pub originator_address: String,
    pub originator_port: u32,
}

/// What starting a local forwarding calls for.
#[derive(Debug)]
pub enum LocalStart {
    /// The forwarding is registered already: nothing is to be done.
    AlreadyActive { tunnel_id: String },
    /// A listener is to be bound to `listen_address`; each connection it accepts
    /// is to be carried by a channel opened as `channel` says.
    Bind { tunnel_id: String, listen_address: String, channel: DirectTcpip },
}

/// What starting a remote forwarding calls for.
#[derive(Debug)]
pub enum RemoteStart {
    /// The port is registered already: nothing is to be done.
    AlreadyActive { tunnel_id: String },
    /// The server is to be asked to listen on `bind_address` and `port`.
    Request { tunnel_id: String, bind_address: String, port: u32 },
}

/// What stopping a tunnel did, and what is left to do.
#[derive(Debug)]
pub enum StopOutcome {
    /// There was nothing to stop.
    Nothing,
    /// A local forwarding was registered under the id: it has been removed, its
    /// connections have been told to give up and its accept loop aborted. These
    /// are the handles that were registered and through which that was done.
    LocalStopped { listener: LocalListener },
    /// The server is to be told to stop listening on `bind_address` and `port`.
    CancelRemote { bind_address: String, port: u32 },
}

/// Where traffic that the server forwards goes.
#[derive(Debug)]
pub enum InboundRoute {
    /// To a connection to `address`, a host and a port with a colon between.
    Dial { address: String },
    /// Nowhere: no forwarding is registered for the port.
    Decline,
}

/// The id of the local forwarding from `local_port` to `remote_port`.
pub open spec fn local_tunnel_id(local_port: u16, remote_port: u16) -> Seq<char> {
    "local:"@ + decimal(local_port as nat) + ":"@ + decimal(remote_port as nat)
}

/// The id of the remote forwarding from `remote_port` to `local_port`.
pub open spec fn remote_tunnel_id(remote_port: u16, local_port: u16) -> Seq<char> {
    "remote:"@ + decimal(remote_port as nat) + ":"@ + decimal(local_port as nat)
}

/// A host and a port as one address.
pub open spec fn host_port(host: Seq<char>, port: u16) -> Seq<char> {
    host + ":"@ + decimal(port as nat)
}

/// Whether an id is that of a local forwarding: whether it begins `local:`.
pub open spec fn is_local_id(id: Seq<char>) -> bool {
    occurs_at(id, "local:"@, 0)
}

/// Whether an id is that of a remote forwarding: whether it begins `remote:`.
pub open spec fn is_remote_id(id: Seq<char>) -> bool {
    !is_local_id(id) && occurs_at(id, "remote:"@, 0)
}

/// The remote port that the id of a remote forwarding names: the second of its
/// three fields between colons, read as a number of 16 bits.
pub open spec fn remote_port_of(id: Seq<char>) -> Option<u16> {
    let fields = split(id, ':');
    if is_remote_id(id) && fields.len() == 3 {
        match parse_unsigned(fields[1], 0xffff) {
            Some(port) => Some(port as u16),
            None => None,
        }
    } else {
        None
    }
}

/// The message for a request to listen that the server did not grant.
pub open spec fn remote_forward_error_text(reason: Seq<char>) -> Seq<char> {
    "Remote forwarding error: "@ + reason
}

/// The id of the local forwarding from `local_port` to `remote_port`.
pub fn local_id(local_port: u16, remote_port: u16) -> (id: String)
    ensures
        id@ == local_tunnel_id(local_port, remote_port),
{
    let mut id = "local:".to_string();
    push_decimal(&mut id, local_port as u64);
    id.append(":");
    push_decimal(&mut id, remote_port as u64);
    id
}

/// The id of the remote forwarding from `remote_port` to `local_port`.
pub fn remote_id(remote_port: u16, local_port: u16) -> (id: String)
    ensures
        id@ == remote_tunnel_id(remote_port, local_port),
{
    let mut id = "remote:".to_string();
    push_decimal(&mut id, remote_port as u64);
    id.append(":");
    push_decimal(&mut id, local_port as u64);
    id
}

/// A host and a port as one address.
pub fn host_port_address(host: &str, port: u16) -> (address: String)
    ensures
        address@ == host_port(host@, port),
{
    let mut address = host.to_string();
    address.append(":");
    push_decimal(&mut address, port as u64);
    address
}

/// The remote port that the id of a remote forwarding names.
pub fn parse_remote_port(tunnel_id: &[char]) -> (port: Option<u16>)
    ensures
        port == remote_port_of(tunnel_id@),
{
    let local_prefix = to_chars("local:");
    let remote_prefix = to_chars("remote:");
    if starts_with(tunnel_id, local_prefix.as_slice()) || !starts_with(
        tunnel_id,
        remote_prefix.as_slice(),
    ) {
        return None;
    }
    let fields = split_on(tunnel_id, ':');
    if fields.len() != 3 {
        return None;
    }
    match parse_number(fields[1], 0xffff) {
        Some(port) => Some(port as u16),
        None => None,
    }
}

/// What a list of ids and listeners registers: for each id the listener that
/// stands with it, and where an id stands twice, the later one.
pub open spec fn listed(entries: Seq<(String, LocalListener)>) -> Map<Seq<char>, LocalListener>
    decreases entries.len(),
{
    if entries.len() == 0 {
        Map::empty()
    } else {
        listed(entries.drop_last()).insert(entries.last().0@, entries.last().1)
    }
}

/// The ids that a list registers are those that stand in it.
proof fn lemma_listed_ids(entries: Seq<(String, LocalListener)>, id: Seq<char>)
    ensures
        listed(entries).contains_key(id) <==> exists|i: int|
            0 <= i < entries.len() && (#[trigger] entries[i]).0@ == id,
    decreases entries.len(),
{
    if entries.len() > 0 {
        let rest = entries.drop_last();
        lemma_listed_ids(rest, id);
        if listed(entries).contains_key(id) {
            if entries.last().0@ == id {
                assert(entries[entries.len() - 1].0@ == id);
            } else {
                let i = choose|i: int| 0 <= i < rest.len() && (#[trigger] rest[i]).0@ == id;
                assert(entries[i].0@ == id);
            }
        }
        if exists|i: int| 0 <= i < entries.len() && (#[trigger] entries[i]).0@ == id {
            let i = choose|i: int| 0 <= i < entries.len() && (#[trigger] entries[i]).0@ == id;
            if i < rest.len() {
                assert(rest[i].0@ == id);
            }
        }
    }
}

/// The entries of a list that stand under another id than the given one.
pub open spec fn others(entries: Seq<(String, LocalListener)>, id: Seq<char>) -> Seq<
    (String, LocalListener),
> {
    entries.filter(|entry: (String, LocalListener)| entry.0@ != id)
}

/// A list without the entries of an id registers what it registered before,
/// but for that id.
proof fn lemma_listed_others(entries: Seq<(String, LocalListener)>, id: Seq<char>)
    ensures
        listed(others(entries, id)) == listed(entries).remove(id),
    decreases entries.len(),
{
    reveal(Seq::filter);
    if entries.len() > 0 {
        let rest = entries.drop_last();
        let last = entries.last();
        lemma_listed_others(rest, id);
        if last.0@ != id {
            assert(others(entries, id) == others(rest, id).push(last));
            assert(others(entries, id).drop_last() == others(rest, id));
            assert(listed(rest).remove(id).insert(last.0@, last.1) == listed(rest).insert(
                last.0@,
                last.1,
            ).remove(id));
        } else {
            assert(others(entries, id) == others(rest, id));
            assert(listed(rest).remove(id) == listed(rest).insert(id, last.1).remove(id));
        }
    }
}

/// The listener that a list registers under an id, if it registers one.
spec fn listener_of(entries: Seq<(String, LocalListener)>, id: Seq<char>) -> Option<
    LocalListener,
> {
    if listed(entries).contains_key(id) {
        Some(listed(entries)[id])
    } else {
        None
    }
}

/// The registry of the local forwardings: for the id of each one with a running
/// accept loop, the handles that stop it.
pub struct LocalListeners {
    entries: Vec<(String, LocalListener)>,
}

impl View for LocalListeners {
    type V = Map<Seq<char>, LocalListener>;

    closed spec fn view(&self) -> Map<Seq<char>, LocalListener> {
        listed(self.entries@)
    }
}

impl LocalListeners {
    /// A registry with nothing in it.
    pub fn new() -> (registry: LocalListeners)
        ensures
            registry@ == Map::<Seq<char>, LocalListener>::empty(),
    {
        LocalListeners { entries: Vec::new() }
    }

    /// Whether nothing is registered.
    pub fn is_empty(&self) -> (empty: bool)
        ensures
            empty == (self@ == Map::<Seq<char>, LocalListener>::empty()),
    {
        proof {
            if self.entries@.len() > 0 {
                assert(listed(self.entries@).contains_key(self.entries@.last().0@));
            }
        }
        self.entries.len() == 0
    }

    /// Whether a forwarding is registered under the id.
    pub fn contains_key(&self, id: &str) -> (found: bool)
        ensures
            found == self@.contains_key(id@),
    {
        let wanted = id.to_string();
        let mut i: usize = 0;
        while i < self.entries.len()
            invariant
                i <= self.entries@.len(),
                wanted@ == id@,
                forall|k: int| 0 <= k < i ==> (#[trigger] self.entries@[k]).0@ != id@,
            decreases self.entries@.len() - i,
        {
            if self.entries[i].0 == wanted {
                proof {
                    assert(self.entries@[i as int].0@ == id@);
                    lemma_listed_ids(self.entries@, id@);
                }
                return true;
            }
            i += 1;
        }
        proof {
            lemma_listed_ids(self.entries@, id@);
        }
        false
    }

    /// Takes the forwarding that is registered under the id out of the
    /// registry, and hands out its listener.
    pub fn remove(&mut self, id: &str) -> (removed: Option<LocalListener>)
        ensures
            final(self)@ == old(self)@.remove(id@),
            match removed {
                Some(listener) => old(self)@.contains_key(id@) && listener == old(self)@[id@],
                None => !old(self)@.contains_key(id@),
            },
    {
        let wanted = id.to_string();
        let ghost before = self.entries@;
        let ghost keep = |entry: (String, LocalListener)| entry.0@ != id@;
        let ghost mut seen: int = 0;
        let mut removed: Option<LocalListener> = None;
        let mut i: usize = 0;
        proof {
            reveal(Seq::filter);
            assert(before.skip(0) == before);
            assert(before.take(0).filter(keep) == Seq::<(String, LocalListener)>::empty());
        }
        while i < self.entries.len()
            invariant
                0 <= seen <= before.len(),
                wanted@ == id@,
                keep == |entry: (String, LocalListener)| entry.0@ != id@,
                i == before.take(seen).filter(keep).len(),
                self.entries@ == before.take(seen).filter(keep) + before.skip(seen),
                removed == listener_of(before.take(seen), id@),
            decreases self.entries@.len() - i,
        {
            proof {
                reveal(Seq::filter);
                assert(before.take(seen + 1).drop_last() == before.take(seen));
                assert(before.take(seen + 1).last() == before[seen]);
                assert(self.entries@[i as int] == before[seen]);
            }
            if self.entries[i].0 == wanted {
                let entry = self.entries.remove(i);
                removed = Some(entry.1);
                assert(self.entries@ == before.take(seen + 1).filter(keep) + before.skip(
                    seen + 1,
                ));
            } else {
                i += 1;
                assert(self.entries@ == before.take(seen + 1).filter(keep) + before.skip(
                    seen + 1,
                ));
            }
            proof {
                seen = seen + 1;
            }
        }
        proof {
            assert(before.take(seen) == before);
            assert(self.entries@ == others(before, id@));
            lemma_listed_others(before, id@);
        }
        removed
    }

    /// Registers the listener under the id, in place of the one that is
    /// registered under it, if one is.
    pub fn insert(&mut self, id: String, listener: LocalListener)
        ensures
            final(self)@ == old(self)@.insert(id@, listener),
    {
        let _ = self.remove(id.as_str());
        let ghost before = self.entries@;
        self.entries.push((id, listener));
        proof {
            assert(self.entries@.drop_last() == before);
            assert(old(self)@.remove(id@).insert(id@, listener) == old(self)@.insert(
                id@,
                listener,
            ));
        }
    }
}

/// The registry of the forwardings that are active.
pub struct TunnelManager {
    /// For each remote port that the server listens on for this session: the
    /// local host and port that its traffic goes to, and the address that the
    /// server was asked to bind.
    pub remote_forwards: HashMap<u16, (String, u16, String)>,
    /// For the id of each local forwarding with a running accept loop: the
    /// handles that stop it.
    pub local_listeners: LocalListeners,
}

/// What the two registries hold.
pub ghost struct Registries {
    pub local: Map<Seq<char>, LocalListener>,
    pub remote: Map<u16, (String, u16, String)>,
}

/// Whether `start` is the answer to a request to start the local forwarding
/// from `bind_address` and `local_port` to `remote_host` and `remote_port`,
/// where the local forwardings with the ids `ids` are registered.
pub open spec fn local_start_is(
    ids: Set<Seq<char>>,
    bind_address: Seq<char>,
    local_port: u16,
    remote_host: Seq<char>,
    remote_port: u16,
    start: LocalStart,
) -> bool {
    match start {
        LocalStart::AlreadyActive { tunnel_id } => {
            &&& ids.contains(local_tunnel_id(local_port, remote_port))
            &&& tunnel_id@ == local_tunnel_id(local_port, remote_port)
        },
        LocalStart::Bind { tunnel_id, listen_address, channel } => {
            &&& !ids.contains(local_tunnel_id(local_port, remote_port))
            &&& tunnel_id@ == local_tunnel_id(local_port, remote_port)
            &&& listen_address@ == host_port(bind_address, local_port)
            &&& channel.host@ == remote_host
            &&& channel.port == remote_port
            &&& channel.originator_address@ == "127.0.0.1"@
            &&& channel.originator_port == 0
        },
    }
}

/// Whether `start` is the answer to a request to start the remote forwarding
/// from `bind_address` and `remote_port` to `local_host` and `local_port`, and
/// `after` the registry of remote forwardings that it leaves of `before`. For a
/// port that is registered the answer is the id of the forwarding that is
/// there, which names the local port that it was registered with.
pub open spec fn remote_start_is(
    before: Map<u16, (String, u16, String)>,
    after: Map<u16, (String, u16, String)>,
    bind_address: String,
    remote_port: u16,
    local_host: String,
    local_port: u16,
    start: RemoteStart,
) -> bool {
    match start {
        RemoteStart::AlreadyActive { tunnel_id } => {
            &&& before.contains_key(remote_port)
            &&& after == before
            &&& tunnel_id@ == remote_tunnel_id(remote_port, before[remote_port].1)
        },
        RemoteStart::Request { tunnel_id, bind_address: bind, port } => {
            &&& !before.contains_key(remote_port)
            &&& after == before.insert(remote_port, (local_host, local_port, bind_address))
            &&& tunnel_id@ == remote_tunnel_id(remote_port, local_port)
            &&& bind@ == bind_address@
            &&& port == remote_port
        },
    }
}

/// The address on which the server is told to stop listening on
/// `remote_port`: the one given, else the one that was registered, else
/// `0.0.0.0`.
pub open spec fn cancel_address(
    remote: Map<u16, (String, u16, String)>,
    remote_port: u16,
    bind_address_override: Option<String>,
) -> Seq<char> {
    match bind_address_override {
        Some(given) => given@,
        None => if remote.contains_key(remote_port) {
            remote[remote_port].2@
        } else {
            "0.0.0.0"@
        },
    }
}

/// Whether `outcome` is what stopping the tunnel `tunnel_id` does and asks for,
/// and `after` what it leaves of the registries `before`.
pub open spec fn stop_is(
    before: Registries,
    after: Registries,
    has_session: bool,
    tunnel_id: Seq<char>,
    bind_address_override: Option<String>,
    outcome: StopOutcome,
) -> bool {
    if is_local_id(tunnel_id) {
        &&& after.remote == before.remote
        &&& after.local == before.local.remove(tunnel_id)
        &&& if before.local.contains_key(tunnel_id) {
            &&& outcome matches StopOutcome::LocalStopped { listener }
            &&& listener == before.local[tunnel_id]
        } else {
            outcome is Nothing
        }
    } else {
        &&& after.local == before.local
        &&& match remote_port_of(tunnel_id) {
            Some(remote_port) => {
                &&& after.remote == before.remote.remove(remote_port)
                &&& if has_session {
                    &&& outcome matches StopOutcome::CancelRemote { bind_address, port }
                    &&& port == remote_port
                    &&& bind_address@ == cancel_address(
                        before.remote,
                        remote_port,
                        bind_address_override,
                    )
                } else {
                    outcome is Nothing
                }
            },
            None => after.remote == before.remote && outcome is Nothing,
        }
    }
}

/// Whether `route` is where traffic goes that the server forwards from the port
/// `connected_port`, with the remote forwardings `remote` registered: to the
/// target of the port, or nowhere if the port is not registered.
pub open spec fn route_is(
    remote: Map<u16, (String, u16, String)>,
    connected_port: u32,
    route: InboundRoute,
) -> bool {
    if connected_port <= 0xffff && remote.contains_key(connected_port as u16) {
        &&& route matches InboundRoute::Dial { address }
        &&& address@ == host_port(
            remote[connected_port as u16].0@,
            remote[connected_port as u16].1,
        )
    } else {
        route is Decline
    }
}

impl TunnelManager {
    /// What the two registries hold.
    pub open spec fn registries(&self) -> Registries {
        Registries { local: self.local_listeners@, remote: self.remote_forwards@ }
    }

    /// The ids of the local forwardings that are registered.
    pub open spec fn local_ids(&self) -> Set<Seq<char>> {
        self.local_listeners@.dom()
    }

    /// The remote ports that are registered.
    pub open spec fn remote_ports(&self) -> Set<u16> {
        self.remote_forwards@.dom()
    }

    /// A manager with nothing registered.
    pub fn new() -> (manager: TunnelManager)
        ensures
            manager.registries() == (Registries { local: Map::empty(), remote: Map::empty() }),
    {
        TunnelManager { remote_forwards: HashMap::new(), local_listeners: LocalListeners::new() }
    }

    /// Decides how a local forwarding from `bind_address` and `local_port` to
    /// `remote_host` and `remote_port` is started. One that is registered under
    /// its id is not started again, whatever the other arguments are; else a
    /// listener is to be bound, and each connection that it accepts is to be
    /// sent through a channel to the remote end, with `127.0.0.1` and port 0
    /// named as its origin.
    pub fn start_local_forwarding(
        &self,
        bind_address: &str,
        local_port: u16,
        remote_host: &str,
        remote_port: u16,
    ) -> (start: LocalStart)
        ensures
            local_start_is(
                self.local_ids(),
                bind_address@,
                local_port,
                remote_host@,
                remote_port,
                start,
            ),
    {
        let tunnel_id = local_id(local_port, remote_port);
        if self.local_listeners.contains_key(tunnel_id.as_str()) {
            return LocalStart::AlreadyActive { tunnel_id };
        }
        LocalStart::Bind {
            tunnel_id,
            listen_address: host_port_address(bind_address, local_port),
            channel: DirectTcpip {
                host: remote_host.to_string(),
                port: remote_port as u32,
                originator_address: "127.0.0.1".to_string(),
                originator_port: 0,
            },
        }
    }

    /// Registers the local forwarding from `local_port` to `remote_port`, whose
    /// accept loop is running, and returns its id. An entry that was there
    /// under the id is replaced.
    pub fn register_local_listener(
        &mut self,
        local_port: u16,
        remote_port: u16,
        listener: LocalListener,
    ) -> (tunnel_id: String)
        ensures
            tunnel_id@ == local_tunnel_id(local_port, remote_port),
            final(self).registries() == (Registries {
                local: old(self).registries().local.insert(
                    local_tunnel_id(local_port, remote_port),
                    listener,
                ),
                remote: old(self).registries().remote,
            }),
    {
        let tunnel_id = local_id(local_port, remote_port);
        self.local_listeners.insert(tunnel_id.clone(), listener);
        tunnel_id
    }

    /// Decides how a remote forwarding from `bind_address` and `remote_port` on
    /// the server to `local_host` and `local_port` is started. A port that is
    /// registered is not asked for again, whatever the other arguments are, and
    /// the id of the forwarding that is registered for it is the answer; else
    /// the target is registered at once, so that traffic which the server
    /// forwards as soon as it listens finds it, and the server is to be asked.
    pub fn start_remote_forwarding(
        &mut self,
        bind_address: String,
        remote_port: u16,
        local_host: String,
        local_port: u16,
    ) -> (start: RemoteStart)
        ensures
            final(self).registries().local == old(self).registries().local,
            remote_start_is(
                old(self).registries().remote,
                final(self).registries().remote,
                bind_address,
                remote_port,
                local_host,
                local_port,
                start,
            ),
    {
        match self.remote_forwards.get(&remote_port) {
            Some(registered) => {
                return RemoteStart::AlreadyActive {
                    tunnel_id: remote_id(remote_port, registered.1),
                };
            },
            None => {},
        }
        let tunnel_id = remote_id(remote_port, local_port);
        let bind = bind_address.clone();
        self.remote_forwards.insert(remote_port, (local_host, local_port, bind_address));
        RemoteStart::Request { tunnel_id, bind_address: bind, port: remote_port as u32 }
    }

    /// Takes in how the server answered the request to listen on `remote_port`.
    /// Granted, the forwarding stays registered and its id is returned. Refused
    /// or failed, with a reason, its entry is taken out again.
    pub fn complete_remote_forwarding(
        &mut self,
        remote_port: u16,
        local_port: u16,
        answer: Result<(), String>,
    ) -> (result: Result<String, TunnelError>)
        ensures
            final(self).registries().local == old(self).registries().local,
            match answer {
                Ok(_) => {
                    &&& final(self).registries().remote == old(self).registries().remote
                    &&& result matches Ok(tunnel_id)
                    &&& tunnel_id@ == remote_tunnel_id(remote_port, local_port)
                },
                Err(reason) => {
                    &&& final(self).registries().remote == old(self).registries().remote.remove(
                        remote_port,
                    )
                    &&& result matches Err(TunnelError::RemoteForward { message })
                    &&& message@ == remote_forward_error_text(reason@)
                },
            },
    {
        match answer {
            Ok(_) => Ok(remote_id(remote_port, local_port)),
            Err(reason) => {
                self.remote_forwards.remove(&remote_port);
                let mut message = "Remote forwarding error: ".to_string();
                message.append(reason.as_str());
                Err(TunnelError::RemoteForward { message })
            },
        }
    }

    /// Stops the tunnel with the given id and says what is left to do. It never
    /// fails, and an id that names nothing changes nothing.
    ///
    /// An id that begins `local:` is looked up as it stands. If a forwarding is
    /// registered under it, the entry is removed, the forwarding's connections
    /// are told to give up and its accept loop is aborted, and the handles
    /// through which that was done are handed out.
    ///
    /// An id that begins `remote:` and names a port has that port's entry
    /// removed. With a session at hand the server is then to be told to stop
    /// listening, on the address given in `bind_address_override`, else on the
    /// one that was registered, else, where none was, on `0.0.0.0`.
    pub fn stop_tunnel(
        &mut self,
        has_session: bool,
        tunnel_id: &str,
        bind_address_override: Option<String>,
    ) -> (outcome: StopOutcome)
        ensures
            stop_is(
                old(self).registries(),
                final(self).registries(),
                has_session,
                tunnel_id@,
                bind_address_override,
                outcome,
            ),
    {
        let id = to_chars(tunnel_id);
        let local_prefix = to_chars("local:");
        if starts_with(id.as_slice(), local_prefix.as_slice()) {
            return match self.local_listeners.remove(tunnel_id) {
                Some(listener) => {
                    broadcast_signal(&listener.cancel);
                    abort_task(&listener.abort);
                    StopOutcome::LocalStopped { listener }
                },
                None => StopOutcome::Nothing,
            };
        }
        match parse_remote_port(id.as_slice()) {
            Some(remote_port) => {
                let stored = self.remote_forwards.remove(&remote_port);
                if !has_session {
                    return StopOutcome::Nothing;
                }
                let bind_address = match bind_address_override {
                    Some(given) => given,
                    None => match stored {
                        Some(entry) => entry.2,
                        None => "0.0.0.0".to_string(),
                    },
                };
                StopOutcome::CancelRemote { bind_address, port: remote_port as u32 }
            },
            None => StopOutcome::Nothing,
        }
    }

    /// Decides where traffic goes that the server forwards from the port
    /// `connected_port`, on which it listens: to the local target that is
    /// registered for the port, or nowhere if the port is not registered.
    pub fn route_forwarded(&self, connected_port: u32) -> (route: InboundRoute)
        ensures
            route_is(self.registries().remote, connected_port, route),
    {
        if connected_port > 0xffff {
            return InboundRoute::Decline;
        }
        let port: u16 = connected_port as u16;
        match self.remote_forwards.get(&port) {
            Some(target) => InboundRoute::Dial {
                address: host_port_address(target.0.as_str(), target.1),
            },
            None => InboundRoute::Decline,
        }
    }
}

} // verus!
