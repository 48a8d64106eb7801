//! The lives of a local forwarding, of one connection through it, and of a
//! remote forwarding.
//!
//! Each is a small machine. The caller reports what happened; the machine moves
//! and says what is to be done. What the state does not wait for changes
//! nothing and asks for nothing.

use vstd::prelude::*;

verus! {

/// The states of a local forwarding.
#[derive(Clone, Copy, Debug, PartialEq, Eq, Structural)]
pub enum LocalTunnelState {
    /// The listener is being bound.
    Binding,
    /// The accept loop runs: connections are taken in.
    Accepting,
    /// The forwarding was told to stop: the listener is being let go.
    Stopping,
    /// The forwarding is over, and its port is free. Nothing follows.
    Stopped,
}

/// What happens to a local forwarding.
#[derive(Clone, Copy, Debug, PartialEq, Eq, Structural)]
pub enum LocalTunnelEvent {
    /// The listener is bound.
    Bound,
    /// The listener could not be bound.
    BindFailed,
    /// A connection came in.
    Incoming,
    /// The signal to stop arrived.
    Cancelled,
    /// The listener was let go.
    ListenerReleased,
}

/// What the accept loop of a local forwarding is to do.
#[derive(Clone, Copy, Debug, PartialEq, Eq, Structural)]
pub enum LocalTunnelAction {
    /// Go on as before.
    Nothing,
    /// Hand the connection that came in to a task of its own.
    SpawnConnection,
    /// Leave the loop and let the listener go.
    ReleaseListener,
}

/// The state after an event, and what is to be done.
pub open spec fn local_tunnel_next(state: LocalTunnelState, event: LocalTunnelEvent) -> (
    LocalTunnelState,
    LocalTunnelAction,
) {
    match (state, event) {
        (LocalTunnelState::Binding, LocalTunnelEvent::Bound) => (
            LocalTunnelState::Accepting,
            LocalTunnelAction::Nothing,
        ),
        (LocalTunnelState::Binding, LocalTunnelEvent::BindFailed) => (
            LocalTunnelState::Stopped,
            LocalTunnelAction::Nothing,
        ),
        (LocalTunnelState::Accepting, LocalTunnelEvent::Incoming) => (
            LocalTunnelState::Accepting,
            LocalTunnelAction::SpawnConnection,
        ),
        (LocalTunnelState::Accepting, LocalTunnelEvent::Cancelled) => (
            LocalTunnelState::Stopping,
            LocalTunnelAction::ReleaseListener,
        ),
        (LocalTunnelState::Stopping, LocalTunnelEvent::ListenerReleased) => (
            LocalTunnelState::Stopped,
            LocalTunnelAction::Nothing,
        ),
        _ => (state, LocalTunnelAction::Nothing),
    }
}

impl LocalTunnelState {
    /// The state after an event, and what is to be done.
    pub fn on(self, event: LocalTunnelEvent) -> (next: (LocalTunnelState, LocalTunnelAction))
        ensures
            next == local_tunnel_next(self, event),
    {
        match (self, event) {
            (LocalTunnelState::Binding, LocalTunnelEvent::Bound) => (
                LocalTunnelState::Accepting,
                LocalTunnelAction::Nothing,
            ),
            (LocalTunnelState::Binding, LocalTunnelEvent::BindFailed) => (
                LocalTunnelState::Stopped,
                LocalTunnelAction::Nothing,
            ),
            (LocalTunnelState::Accepting, LocalTunnelEvent::Incoming) => (
                LocalTunnelState::Accepting,
                LocalTunnelAction::SpawnConnection,
            ),
            (LocalTunnelState::Accepting, LocalTunnelEvent::Cancelled) => (
                LocalTunnelState::Stopping,
                LocalTunnelAction::ReleaseListener,
            ),
            (LocalTunnelState::Stopping, LocalTunnelEvent::ListenerReleased) => (
                LocalTunnelState::Stopped,
                LocalTunnelAction::Nothing,
            ),
            _ => (self, LocalTunnelAction::Nothing),
        }
    }
}

/// The state of a local forwarding after a series of events.
pub open spec fn local_tunnel_after(
    state: LocalTunnelState,
    events: Seq<LocalTunnelEvent>,
) -> LocalTunnelState
    decreases events.len(),
{
    if events.len() == 0 {
        state
    } else {
        local_tunnel_next(local_tunnel_after(state, events.drop_last()), events.last()).0
    }
}

/// Once a local forwarding has been told to stop, no connection is taken in
/// any more, whatever happens: after the signal to stop has arrived in the
/// accept loop, no later event has a connection handed to a task.
pub proof fn lemma_no_connection_after_cancel(
    later: Seq<LocalTunnelEvent>,
    event: LocalTunnelEvent,
)
    ensures
        local_tunnel_next(
            local_tunnel_after(
                local_tunnel_next(LocalTunnelState::Accepting, LocalTunnelEvent::Cancelled).0,
                later,
            ),
            event,
        ).1 != LocalTunnelAction::SpawnConnection,
{
    lemma_stopping_stays(later);
}

/// A local forwarding that is stopping is stopping or stopped after any
/// series of events.
pub proof fn lemma_stopping_stays(events: Seq<LocalTunnelEvent>)
    ensures
        local_tunnel_after(LocalTunnelState::Stopping, events) == LocalTunnelState::Stopping
            || local_tunnel_after(LocalTunnelState::Stopping, events) == LocalTunnelState::Stopped,
    decreases events.len(),
{
    if events.len() > 0 {
        lemma_stopping_stays(events.drop_last());
    }
}

/// A local forwarding that is stopped stays so.
pub proof fn lemma_stopped_is_final(event: LocalTunnelEvent)
    ensures
        local_tunnel_next(LocalTunnelState::Stopped, event) == (
            LocalTunnelState::Stopped,
            LocalTunnelAction::Nothing,
        ),
{
}

/// The states of one connection through a local forwarding.
#[derive(Clone, Copy, Debug, PartialEq, Eq, Structural)]
pub enum ConnectionState {
    /// The channel to the remote end is being opened. The session is held for
    /// this, and for this alone.
    Opening,
    /// Bytes are copied both ways. The session is not held.
    Copying,
    /// The connection is over. Nothing follows.
    Finished,
}

/// What happens to a connection.
#[derive(Clone, Copy, Debug, PartialEq, Eq, Structural)]
pub enum ConnectionEvent {
    /// The channel is open.
    ChannelOpened,
    /// The channel could not be opened.
    ChannelFailed,
    /// The copying ended: one side closed, or an error occurred.
    CopyEnded,
    /// The signal to give up arrived.
    Cancelled,
}

/// What the task of a connection is to do.
#[derive(Clone, Copy, Debug, PartialEq, Eq, Structural)]
pub enum ConnectionAction {
    /// Go on as before.
    Nothing,
    /// Let go of the session, then copy bytes both ways until the copying ends
    /// or the signal to give up arrives.
    ReleaseSessionThenCopy,
    /// Let go of the session and drop the connection. The forwarding and its
    /// other connections go on.
    ReleaseSessionAndDrop,
    /// Drop both streams.
    Drop,
}

impl ConnectionState {
    /// Whether the task of a connection in this state holds the session.
    pub open spec fn holds_session(self) -> bool {
        self == ConnectionState::Opening
    }
}

/// The state after an event, and what is to be done.
pub open spec fn connection_next(state: ConnectionState, event: ConnectionEvent) -> (
    ConnectionState,
    ConnectionAction,
) {
    match (state, event) {
        (ConnectionState::Opening, ConnectionEvent::ChannelOpened) => (
            ConnectionState::Copying,
            ConnectionAction::ReleaseSessionThenCopy,
        ),
        (ConnectionState::Opening, ConnectionEvent::ChannelFailed) => (
            ConnectionState::Finished,
            ConnectionAction::ReleaseSessionAndDrop,
        ),
        (ConnectionState::Copying, ConnectionEvent::CopyEnded) => (
            ConnectionState::Finished,
            ConnectionAction::Drop,
        ),
        (ConnectionState::Copying, ConnectionEvent::Cancelled) => (
            ConnectionState::Finished,
            ConnectionAction::Drop,
        ),
        _ => (state, ConnectionAction::Nothing),
    }
}

impl ConnectionState {
    /// The state after an event, and what is to be done.
    pub fn on(self, event: ConnectionEvent) -> (next: (ConnectionState, ConnectionAction))
        ensures
            next == connection_next(self, event),
    {
        match (self, event) {
            (ConnectionState::Opening, ConnectionEvent::ChannelOpened) => (
                ConnectionState::Copying,
                ConnectionAction::ReleaseSessionThenCopy,
            ),
            (ConnectionState::Opening, ConnectionEvent::ChannelFailed) => (
                ConnectionState::Finished,
                ConnectionAction::ReleaseSessionAndDrop,
            ),
            (ConnectionState::Copying, ConnectionEvent::CopyEnded) => (
                ConnectionState::Finished,
                ConnectionAction::Drop,
            ),
            (ConnectionState::Copying, ConnectionEvent::Cancelled) => (
                ConnectionState::Finished,
                ConnectionAction::Drop,
            ),
            _ => (self, ConnectionAction::Nothing),
        }
    }
}

/// The session is never held while bytes are copied: a connection comes to
/// copy only by an action that lets go of the session first, and holds it in
/// no state that follows.
pub proof fn lemma_session_released_before_copy(state: ConnectionState, event: ConnectionEvent)
    ensures
        connection_next(state, event).0 == ConnectionState::Copying && state
            != ConnectionState::Copying ==> connection_next(state, event).1
            == ConnectionAction::ReleaseSessionThenCopy,
        !state.holds_session() ==> !connection_next(state, event).0.holds_session(),
        state.holds_session() && connection_next(state, event).0 != state ==> connection_next(
            state,
            event,
        ).1 == ConnectionAction::ReleaseSessionThenCopy || connection_next(state, event).1
            == ConnectionAction::ReleaseSessionAndDrop,
{
}

/// A connection that copies ends on the signal to give up, at once.
pub proof fn lemma_cancel_ends_copy()
    ensures
        connection_next(ConnectionState::Copying, ConnectionEvent::Cancelled) == (
            ConnectionState::Finished,
            ConnectionAction::Drop,
        ),
{
}

/// The states of a remote forwarding.
#[derive(Clone, Copy, Debug, PartialEq, Eq, Structural)]
pub enum RemoteTunnelState {
    /// The server has been asked to listen. The target is registered.
    Requesting,
    /// The server listens.
    Active,
    /// The server is being told to stop. The target is no longer registered.
    Cancelling,
    /// The server does not listen, and nothing is registered.
    Inactive,
}

/// What happens to a remote forwarding.
#[derive(Clone, Copy, Debug, PartialEq, Eq, Structural)]
pub enum RemoteTunnelEvent {
    /// The server granted the request.
    Granted,
    /// The server refused the request, or the request failed.
    Refused,
    /// The forwarding was told to stop.
    StopRequested,
    /// The server was told to stop listening.
    CancelSent,
}

/// The state after an event.
pub open spec fn remote_tunnel_next(
    state: RemoteTunnelState,
    event: RemoteTunnelEvent,
) -> RemoteTunnelState {
    match (state, event) {
        (RemoteTunnelState::Requesting, RemoteTunnelEvent::Granted) => RemoteTunnelState::Active,
        (RemoteTunnelState::Requesting, RemoteTunnelEvent::Refused) => RemoteTunnelState::Inactive,
        (RemoteTunnelState::Requesting, RemoteTunnelEvent::StopRequested) => {
            RemoteTunnelState::Cancelling
        },
        (RemoteTunnelState::Active, RemoteTunnelEvent::StopRequested) => {
            RemoteTunnelState::Cancelling
        },
        (RemoteTunnelState::Cancelling, RemoteTunnelEvent::CancelSent) => {
            RemoteTunnelState::Inactive
        },
        _ => state,
    }
}

impl RemoteTunnelState {
    /// Whether the target of a forwarding in this state is registered.
    pub open spec fn registered(self) -> bool {
        self == RemoteTunnelState::Requesting || self == RemoteTunnelState::Active
    }

    /// The state after an event.
    pub fn on(self, event: RemoteTunnelEvent) -> (next: RemoteTunnelState)
        ensures
            next == remote_tunnel_next(self, event),
    {
        match (self, event) {
            (RemoteTunnelState::Requesting, RemoteTunnelEvent::Granted) => {
                RemoteTunnelState::Active
            },
            (RemoteTunnelState::Requesting, RemoteTunnelEvent::Refused) => {
                RemoteTunnelState::Inactive
            },
            (RemoteTunnelState::Requesting, RemoteTunnelEvent::StopRequested) => {
                RemoteTunnelState::Cancelling
            },
            (RemoteTunnelState::Active, RemoteTunnelEvent::StopRequested) => {
                RemoteTunnelState::Cancelling
            },
            (RemoteTunnelState::Cancelling, RemoteTunnelEvent::CancelSent) => {
                RemoteTunnelState::Inactive
            },
            _ => self,
        }
    }
}

/// A remote forwarding that is inactive stays so, and one whose target is no
/// longer registered never has it registered again.
pub proof fn lemma_remote_tunnel_ends(state: RemoteTunnelState, event: RemoteTunnelEvent)
    ensures
        remote_tunnel_next(RemoteTunnelState::Inactive, event) == RemoteTunnelState::Inactive,
        !state.registered() ==> !remote_tunnel_next(state, event).registered(),
{
}

} // verus!
