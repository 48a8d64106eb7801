use zync_core::lifecycle::{
    ConnectionAction, ConnectionEvent, ConnectionState, LocalTunnelAction, LocalTunnelEvent,
    LocalTunnelState, RemoteTunnelEvent, RemoteTunnelState,
};

#[test]
fn a_local_forwarding_lives_from_bind_to_stop() {
    let s = LocalTunnelState::Binding;
    let (s, a) = s.on(LocalTunnelEvent::Bound);
    assert_eq!((s, a), (LocalTunnelState::Accepting, LocalTunnelAction::Nothing));
    let (s, a) = s.on(LocalTunnelEvent::Incoming);
    assert_eq!((s, a), (LocalTunnelState::Accepting, LocalTunnelAction::SpawnConnection));
    let (s, a) = s.on(LocalTunnelEvent::Incoming);
    assert_eq!((s, a), (LocalTunnelState::Accepting, LocalTunnelAction::SpawnConnection));
    let (s, a) = s.on(LocalTunnelEvent::Cancelled);
    assert_eq!((s, a), (LocalTunnelState::Stopping, LocalTunnelAction::ReleaseListener));
    let (s, a) = s.on(LocalTunnelEvent::Incoming);
    assert_eq!((s, a), (LocalTunnelState::Stopping, LocalTunnelAction::Nothing));
    let (s, a) = s.on(LocalTunnelEvent::ListenerReleased);
    assert_eq!((s, a), (LocalTunnelState::Stopped, LocalTunnelAction::Nothing));
    for e in [
        LocalTunnelEvent::Bound,
        LocalTunnelEvent::BindFailed,
        LocalTunnelEvent::Incoming,
        LocalTunnelEvent::Cancelled,
        LocalTunnelEvent::ListenerReleased,
    ] {
        assert_eq!(s.on(e), (LocalTunnelState::Stopped, LocalTunnelAction::Nothing));
    }
}

#[test]
fn a_failed_bind_stops_the_forwarding() {
    assert_eq!(
        LocalTunnelState::Binding.on(LocalTunnelEvent::BindFailed),
        (LocalTunnelState::Stopped, LocalTunnelAction::Nothing)
    );
    assert_eq!(
        LocalTunnelState::Binding.on(LocalTunnelEvent::Incoming),
        (LocalTunnelState::Binding, LocalTunnelAction::Nothing)
    );
}

#[test]
fn a_connection_lets_go_of_the_session_before_it_copies() {
    let s = ConnectionState::Opening;
    assert_eq!(s.on(ConnectionEvent::Cancelled), (ConnectionState::Opening, ConnectionAction::Nothing));
    let (s, a) = s.on(ConnectionEvent::ChannelOpened);
    assert_eq!((s, a), (ConnectionState::Copying, ConnectionAction::ReleaseSessionThenCopy));
    let (s, a) = s.on(ConnectionEvent::Cancelled);
    assert_eq!((s, a), (ConnectionState::Finished, ConnectionAction::Drop));
    assert_eq!(s.on(ConnectionEvent::CopyEnded), (ConnectionState::Finished, ConnectionAction::Nothing));
    assert_eq!(
        ConnectionState::Copying.on(ConnectionEvent::CopyEnded),
        (ConnectionState::Finished, ConnectionAction::Drop)
    );
    assert_eq!(
        ConnectionState::Opening.on(ConnectionEvent::ChannelFailed),
        (ConnectionState::Finished, ConnectionAction::ReleaseSessionAndDrop)
    );
}

#[test]
fn a_remote_forwarding_lives_from_request_to_cancel() {
    let s = RemoteTunnelState::Requesting;
    assert_eq!(s.on(RemoteTunnelEvent::Refused), RemoteTunnelState::Inactive);
    let s = s.on(RemoteTunnelEvent::Granted);
    assert_eq!(s, RemoteTunnelState::Active);
    assert_eq!(s.on(RemoteTunnelEvent::Granted), RemoteTunnelState::Active);
    let s = s.on(RemoteTunnelEvent::StopRequested);
    assert_eq!(s, RemoteTunnelState::Cancelling);
    let s = s.on(RemoteTunnelEvent::CancelSent);
    assert_eq!(s, RemoteTunnelState::Inactive);
    assert_eq!(s.on(RemoteTunnelEvent::Granted), RemoteTunnelState::Inactive);
    assert_eq!(s.on(RemoteTunnelEvent::StopRequested), RemoteTunnelState::Inactive);
}
