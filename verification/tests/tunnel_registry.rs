use tokio::runtime::Builder;
use zync_core::tunnel::{
    cancel_channel, local_id, remote_id, InboundRoute, LocalListener, LocalStart, RemoteStart,
    StopOutcome, TunnelError, TunnelManager,
};

fn idle_listener(rt: &tokio::runtime::Runtime) -> (LocalListener, tokio::task::JoinHandle<()>) {
    let cancel = cancel_channel();
    let mut rx = cancel.subscribe();
    let task = rt.spawn(async move {
        let _ = rx.recv().await;
        std::future::pending::<()>().await;
    });
    (LocalListener { abort: task.abort_handle(), cancel }, task)
}

#[test]
fn tunnel_ids_have_the_documented_form() {
    assert_eq!(local_id(8080, 5432), "local:8080:5432");
    assert_eq!(remote_id(9000, 3000), "remote:9000:3000");
    assert_eq!(local_id(0, 65535), "local:0:65535");
}

#[test]
fn new_manager_is_empty() {
    let m = TunnelManager::new();
    assert!(m.remote_forwards.is_empty());
    assert!(m.local_listeners.is_empty());
}

#[test]
fn local_start_asks_for_a_listener() {
    let m = TunnelManager::new();
    match m.start_local_forwarding("127.0.0.1", 8080, "db.internal", 5432) {
        LocalStart::Bind { tunnel_id, listen_address, channel } => {
            assert_eq!(tunnel_id, "local:8080:5432");
            assert_eq!(listen_address, "127.0.0.1:8080");
            assert_eq!(channel.host, "db.internal");
            assert_eq!(channel.port, 5432);
            assert_eq!(channel.originator_address, "127.0.0.1");
            assert_eq!(channel.originator_port, 0);
        }
        other => panic!("unexpected {:?}", other),
    }
}

#[test]
fn local_start_is_idempotent() {
    let rt = Builder::new_current_thread().build().unwrap();
    let mut m = TunnelManager::new();
    let (listener, _task) = idle_listener(&rt);
    let id = m.register_local_listener(8080, 5432, listener);
    assert_eq!(id, "local:8080:5432");
    match m.start_local_forwarding("127.0.0.1", 8080, "db.internal", 5432) {
        LocalStart::AlreadyActive { tunnel_id } => assert_eq!(tunnel_id, "local:8080:5432"),
        other => panic!("unexpected {:?}", other),
    }
    match m.start_local_forwarding("0.0.0.0", 8080, "elsewhere", 5432) {
        LocalStart::AlreadyActive { tunnel_id } => assert_eq!(tunnel_id, "local:8080:5432"),
        other => panic!("unexpected {:?}", other),
    }
    assert!(m.local_listeners.contains_key("local:8080:5432"));
    assert!(!m.local_listeners.contains_key("local:8080:5433"));
    assert!(!m.local_listeners.is_empty());
}

#[test]
fn stopping_a_local_tunnel_cancels_and_aborts() {
    let rt = Builder::new_current_thread().build().unwrap();
    let mut m = TunnelManager::new();
    let (listener, task) = idle_listener(&rt);
    let mut watcher = listener.cancel.subscribe();
    let registered = listener.cancel.clone();
    m.register_local_listener(8080, 5432, listener);
    let outcome = m.stop_tunnel(false, "local:8080:5432", None);
    match outcome {
        StopOutcome::LocalStopped { listener } => {
            assert!(listener.cancel.same_channel(&registered));
        }
        other => panic!("unexpected {:?}", other),
    }
    assert!(m.local_listeners.is_empty());
    assert!(watcher.try_recv().is_ok());
    let joined = rt.block_on(task);
    assert!(joined.unwrap_err().is_cancelled());
    let again = m.stop_tunnel(false, "local:8080:5432", None);
    assert!(matches!(again, StopOutcome::Nothing));
}

#[test]
fn stopping_an_unknown_id_changes_nothing() {
    let mut m = TunnelManager::new();
    let _ = m.start_remote_forwarding("0.0.0.0".to_string(), 9000, "127.0.0.1".to_string(), 3000);
    for id in ["local:1:2", "local:", "remote:", "remote:x:1", "remote:1", "remote:1:2:3", "", "other:1:2", "remote:70000:1"] {
        let outcome = m.stop_tunnel(false, id, None);
        assert!(matches!(outcome, StopOutcome::Nothing), "{}", id);
        assert_eq!(m.remote_forwards.len(), 1);
    }
}

#[test]
fn remote_start_registers_before_the_request() {
    let mut m = TunnelManager::new();
    match m.start_remote_forwarding("0.0.0.0".to_string(), 9000, "127.0.0.1".to_string(), 3000) {
        RemoteStart::Request { tunnel_id, bind_address, port } => {
            assert_eq!(tunnel_id, "remote:9000:3000");
            assert_eq!(bind_address, "0.0.0.0");
            assert_eq!(port, 9000);
        }
        other => panic!("unexpected {:?}", other),
    }
    assert_eq!(
        m.remote_forwards.get(&9000),
        Some(&("127.0.0.1".to_string(), 3000, "0.0.0.0".to_string()))
    );
    match m.start_remote_forwarding("10.0.0.1".to_string(), 9000, "other".to_string(), 1) {
        RemoteStart::AlreadyActive { tunnel_id } => assert_eq!(tunnel_id, "remote:9000:3000"),
        other => panic!("unexpected {:?}", other),
    }
    assert_eq!(
        m.remote_forwards.get(&9000),
        Some(&("127.0.0.1".to_string(), 3000, "0.0.0.0".to_string()))
    );
}

#[test]
fn refused_remote_request_is_rolled_back() {
    let mut m = TunnelManager::new();
    let _ = m.start_remote_forwarding("0.0.0.0".to_string(), 9000, "127.0.0.1".to_string(), 3000);
    let r = m.complete_remote_forwarding(9000, 3000, Err("denied".to_string()));
    match r {
        Err(TunnelError::RemoteForward { message }) => {
            assert_eq!(message, "Remote forwarding error: denied")
        }
        other => panic!("unexpected {:?}", other),
    }
    assert!(m.remote_forwards.is_empty());
}

#[test]
fn granted_remote_request_stays_registered() {
    let mut m = TunnelManager::new();
    let _ = m.start_remote_forwarding("0.0.0.0".to_string(), 9000, "127.0.0.1".to_string(), 3000);
    let r = m.complete_remote_forwarding(9000, 3000, Ok(()));
    assert_eq!(r.unwrap(), "remote:9000:3000");
    assert_eq!(m.remote_forwards.len(), 1);
}

#[test]
fn remote_forward_and_inbound_route() {
    let mut m = TunnelManager::new();
    let _ = m.start_remote_forwarding("0.0.0.0".to_string(), 9000, "127.0.0.1".to_string(), 3000);
    match m.route_forwarded(9000) {
        InboundRoute::Dial { address } => assert_eq!(address, "127.0.0.1:3000"),
        other => panic!("unexpected {:?}", other),
    }
    assert!(matches!(m.route_forwarded(9001), InboundRoute::Decline));
    assert!(matches!(m.route_forwarded(65536 + 9000), InboundRoute::Decline));
    match m.stop_tunnel(true, "remote:9000:3000", None) {
        StopOutcome::CancelRemote { bind_address, port } => {
            assert_eq!(bind_address, "0.0.0.0");
            assert_eq!(port, 9000);
        }
        other => panic!("unexpected {:?}", other),
    }
    assert!(m.remote_forwards.is_empty());
    assert!(matches!(m.route_forwarded(9000), InboundRoute::Decline));
}

#[test]
fn remote_stop_prefers_the_override_then_the_stored_address() {
    let mut m = TunnelManager::new();
    let _ = m.start_remote_forwarding("10.1.1.1".to_string(), 9000, "127.0.0.1".to_string(), 3000);
    match m.stop_tunnel(true, "remote:9000:3000", Some("192.168.0.1".to_string())) {
        StopOutcome::CancelRemote { bind_address, port } => {
            assert_eq!(bind_address, "192.168.0.1");
            assert_eq!(port, 9000);
        }
        other => panic!("unexpected {:?}", other),
    }
    let _ = m.start_remote_forwarding("10.1.1.1".to_string(), 9000, "127.0.0.1".to_string(), 3000);
    match m.stop_tunnel(true, "remote:+9000:anything", None) {
        StopOutcome::CancelRemote { bind_address, port } => {
            assert_eq!(bind_address, "10.1.1.1");
            assert_eq!(port, 9000);
        }
        other => panic!("unexpected {:?}", other),
    }
    assert!(m.remote_forwards.is_empty());
}

#[test]
fn remote_stop_of_an_unregistered_port_still_cancels_with_a_session() {
    let mut m = TunnelManager::new();
    match m.stop_tunnel(true, "remote:9000:3000", None) {
        StopOutcome::CancelRemote { bind_address, port } => {
            assert_eq!(bind_address, "0.0.0.0");
            assert_eq!(port, 9000);
        }
        other => panic!("unexpected {:?}", other),
    }
    match m.stop_tunnel(true, "remote:9000:3000", Some("1.2.3.4".to_string())) {
        StopOutcome::CancelRemote { bind_address, .. } => assert_eq!(bind_address, "1.2.3.4"),
        other => panic!("unexpected {:?}", other),
    }
    assert!(matches!(m.stop_tunnel(false, "remote:9000:3000", None), StopOutcome::Nothing));
}

#[test]
fn a_second_registration_takes_the_place_of_the_first() {
    let rt = Builder::new_current_thread().build().unwrap();
    let mut m = TunnelManager::new();
    let (first, _first_task) = idle_listener(&rt);
    let (second, second_task) = idle_listener(&rt);
    let (other, _other_task) = idle_listener(&rt);
    let first_channel = first.cancel.clone();
    let second_channel = second.cancel.clone();
    m.register_local_listener(8080, 5432, first);
    m.register_local_listener(9090, 1, other);
    m.register_local_listener(8080, 5432, second);
    match m.stop_tunnel(false, "local:8080:5432", None) {
        StopOutcome::LocalStopped { listener } => {
            assert!(listener.cancel.same_channel(&second_channel));
            assert!(!listener.cancel.same_channel(&first_channel));
        }
        other => panic!("unexpected {:?}", other),
    }
    assert!(rt.block_on(second_task).unwrap_err().is_cancelled());
    assert!(!m.local_listeners.contains_key("local:8080:5432"));
    assert!(m.local_listeners.contains_key("local:9090:1"));
    assert!(matches!(m.stop_tunnel(false, "local:8080:5432", None), StopOutcome::Nothing));
}

#[test]
fn a_second_remote_start_is_answered_with_the_id_that_is_registered() {
    let mut m = TunnelManager::new();
    let _ = m.start_remote_forwarding("0.0.0.0".to_string(), 9000, "127.0.0.1".to_string(), 3000);
    let id = match m.start_remote_forwarding("0.0.0.0".to_string(), 9000, "127.0.0.1".to_string(), 4000) {
        RemoteStart::AlreadyActive { tunnel_id } => tunnel_id,
        other => panic!("unexpected {:?}", other),
    };
    assert_eq!(id, "remote:9000:3000");
    assert!(matches!(m.stop_tunnel(false, &id, None), StopOutcome::Nothing));
    assert!(m.remote_forwards.is_empty());
}
