use std::cell::RefCell;
use zync_core::diagnostics::{
    describe_process, find_next_available_port, find_process_using_port, local_bind_error,
    name_from_ps, name_from_tasklist, pid_from_lsof, pid_from_netstat, port_in_use,
    port_in_use_message, BindFailure, CommandLine, CommandOutput, Platform,
};
use zync_core::tunnel::TunnelError;

fn port_of(address: &str) -> u16 {
    let (host, port) = address.rsplit_once(':').unwrap();
    assert_eq!(host, "127.0.0.1");
    port.parse().unwrap()
}

fn ok(stdout: &str) -> Option<CommandOutput> {
    Some(CommandOutput { success: true, stdout: stdout.to_string() })
}

fn failed() -> Option<CommandOutput> {
    Some(CommandOutput { success: false, stdout: String::new() })
}

#[test]
fn next_port_is_the_first_free_candidate() {
    assert_eq!(find_next_available_port(8080, 10, |a| a == "127.0.0.1:8083"), Some(8083));
    assert_eq!(find_next_available_port(8080, 10, |_| true), Some(8081));
    assert_eq!(find_next_available_port(8080, 10, |a| port_of(&a) == 8090), Some(8090));
    assert_eq!(find_next_available_port(8080, 10, |a| port_of(&a) == 8091), None);
    assert_eq!(find_next_available_port(8080, 10, |a| port_of(&a) == 8080), None);
    assert_eq!(find_next_available_port(8080, 0, |_| true), None);
}

#[test]
fn next_port_probes_in_order_and_stops_at_the_first_success() {
    let seen = RefCell::new(Vec::new());
    let r = find_next_available_port(8080, 10, |a| {
        seen.borrow_mut().push(a.clone());
        a == "127.0.0.1:8082"
    });
    assert_eq!(r, Some(8082));
    assert_eq!(*seen.borrow(), vec!["127.0.0.1:8081", "127.0.0.1:8082"]);
}

#[test]
fn next_port_saturates_at_the_highest_port() {
    assert_eq!(find_next_available_port(65535, 10, |_| true), None);
    assert_eq!(find_next_available_port(65534, 10, |_| true), Some(65535));
    let seen = RefCell::new(Vec::new());
    let r = find_next_available_port(65533, 4, |a| {
        seen.borrow_mut().push(port_of(&a));
        false
    });
    assert_eq!(r, None);
    assert_eq!(*seen.borrow(), vec![65534, 65535, 65535, 65535]);
    assert_eq!(find_next_available_port(0, 255, |a| port_of(&a) == 255), Some(255));
}

#[test]
fn lsof_output_is_one_process_id() {
    assert_eq!(pid_from_lsof("1234\n"), Some(1234));
    assert_eq!(pid_from_lsof("  42  "), Some(42));
    assert_eq!(pid_from_lsof("+7"), Some(7));
    assert_eq!(pid_from_lsof("007"), Some(7));
    assert_eq!(pid_from_lsof("4294967295"), Some(4294967295));
    assert_eq!(pid_from_lsof("4294967296"), None);
    assert_eq!(pid_from_lsof("12\n34\n"), None);
    assert_eq!(pid_from_lsof(""), None);
    assert_eq!(pid_from_lsof("-1"), None);
    assert_eq!(pid_from_lsof("+"), None);
    assert_eq!(pid_from_lsof("12a"), None);
}

#[test]
fn ps_output_is_trimmed() {
    assert_eq!(name_from_ps("node\n"), Some("node".chars().collect()));
    assert_eq!(name_from_ps("  my app \r\n"), Some("my app".chars().collect()));
    assert_eq!(name_from_ps(" \n"), None);
    assert_eq!(name_from_ps(""), None);
}

#[test]
fn netstat_output_is_searched_line_by_line() {
    let out = "  Proto  Local Address   Foreign Address  State  PID\r\n  TCP  0.0.0.0:135  0.0.0.0:0  LISTENING  1000\r\n  TCP  0.0.0.0:8080  0.0.0.0:0  ESTABLISHED  7\r\n  TCP  0.0.0.0:8080  0.0.0.0:0  LISTENING  4321\r\n  TCP  [::]:8080  [::]:0  LISTENING  99\r\n";
    assert_eq!(pid_from_netstat(out, 8080), Some(4321));
    assert_eq!(pid_from_netstat(out, 135), Some(1000));
    assert_eq!(pid_from_netstat(out, 80), Some(4321));
    assert_eq!(pid_from_netstat(out, 9), None);
    assert_eq!(pid_from_netstat("TCP :8080 LISTENING x\nTCP :8080 LISTENING 5", 8080), Some(5));
    assert_eq!(pid_from_netstat(":8080LISTENING", 8080), None);
    assert_eq!(pid_from_netstat("", 8080), None);
}

#[test]
fn tasklist_output_gives_the_first_field() {
    assert_eq!(
        name_from_tasklist("\"node.exe\",\"4321\",\"Console\",\"1\",\"50,000 K\"\r\n"),
        Some("node.exe".chars().collect())
    );
    assert_eq!(name_from_tasklist("\" spaced \",1"), Some("spaced".chars().collect()));
    assert_eq!(name_from_tasklist("\"\",1"), None);
    assert_eq!(name_from_tasklist(""), None);
    assert_eq!(name_from_tasklist("plain"), Some("plain".chars().collect()));
}

#[test]
fn process_descriptions() {
    assert_eq!(describe_process(1234, Some("node".chars().collect())), "by 'node' (PID: 1234)");
    assert_eq!(describe_process(1234, None), "by PID 1234");
    assert_eq!(describe_process(0, None), "by PID 0");
}

#[test]
fn unix_lookup_runs_lsof_then_ps() {
    let calls = RefCell::new(Vec::new());
    let r = find_process_using_port(8080, Platform::Unix, |c: CommandLine| {
        calls.borrow_mut().push((c.program.clone(), c.args.clone()));
        if c.program == "lsof" { ok("1234\n") } else { ok("node\n") }
    });
    assert_eq!(r, Some("by 'node' (PID: 1234)".to_string()));
    let calls = calls.into_inner();
    assert_eq!(calls.len(), 2);
    assert_eq!(calls[0].0, "lsof");
    assert_eq!(calls[0].1, vec!["-i", ":8080", "-t", "-sTCP:LISTEN"]);
    assert_eq!(calls[1].0, "ps");
    assert_eq!(calls[1].1, vec!["-p", "1234", "-o", "comm="]);
}

#[test]
fn unix_lookup_without_an_answer() {
    let none = |_: CommandLine| -> Option<CommandOutput> { None };
    assert_eq!(find_process_using_port(8080, Platform::Unix, none), None);
    assert_eq!(find_process_using_port(8080, Platform::Unix, |_| failed()), None);
    assert_eq!(find_process_using_port(8080, Platform::Unix, |_| ok("")), None);
    let r = find_process_using_port(8080, Platform::Unix, |c: CommandLine| {
        if c.program == "lsof" { ok("77") } else { None }
    });
    assert_eq!(r, None);
    let r = find_process_using_port(8080, Platform::Unix, |c: CommandLine| {
        if c.program == "lsof" { ok("77") } else { failed() }
    });
    assert_eq!(r, Some("by PID 77".to_string()));
    let r = find_process_using_port(8080, Platform::Unix, |c: CommandLine| {
        if c.program == "lsof" { ok("77") } else { ok("\n") }
    });
    assert_eq!(r, Some("by PID 77".to_string()));
}

#[test]
fn windows_lookup_runs_netstat_then_tasklist() {
    let calls = RefCell::new(Vec::new());
    let r = find_process_using_port(8080, Platform::Windows, |c: CommandLine| {
        calls.borrow_mut().push((c.program.clone(), c.args.clone()));
        if c.program == "netstat" {
            ok("  TCP    0.0.0.0:8080   0.0.0.0:0   LISTENING   4321\r\n")
        } else {
            ok("\"node.exe\",\"4321\",\"Console\",\"1\",\"50,000 K\"\r\n")
        }
    });
    assert_eq!(r, Some("by 'node.exe' (PID: 4321)".to_string()));
    let calls = calls.into_inner();
    assert_eq!(calls.len(), 2);
    assert_eq!(calls[0].0, "netstat");
    assert_eq!(calls[0].1, vec!["-ano"]);
    assert_eq!(calls[1].0, "tasklist");
    assert_eq!(calls[1].1, vec!["/FI", "PID eq 4321", "/FO", "CSV", "/NH"]);
}

#[test]
fn unknown_platform_runs_nothing() {
    let calls = RefCell::new(0);
    let r = find_process_using_port(8080, Platform::Other, |_c: CommandLine| {
        *calls.borrow_mut() += 1;
        ok("1")
    });
    assert_eq!(r, None);
    assert_eq!(*calls.borrow(), 0);
}

#[test]
fn port_in_use_messages() {
    assert_eq!(
        port_in_use_message(8080, Some("by 'node' (PID: 1234)"), Some(8081)),
        "Port 8080 is already in use by 'node' (PID: 1234). Port 8081 is available."
    );
    assert_eq!(
        port_in_use_message(8080, None, Some(8085)),
        "Port 8080 is already in use. Port 8085 is available."
    );
    assert_eq!(
        port_in_use_message(8080, Some("by PID 9"), None),
        "Port 8080 is already in use by PID 9. Please choose a different port."
    );
    assert_eq!(
        port_in_use_message(8080, None, None),
        "Port 8080 is already in use. Please choose a different port."
    );
}

#[test]
fn port_in_use_diagnostic() {
    let e = port_in_use(
        8080,
        Platform::Unix,
        |c: CommandLine| if c.program == "lsof" { ok("1234") } else { ok("node") },
        |a| port_of(&a) >= 8083,
    );
    match e {
        TunnelError::PortInUse { message } => assert_eq!(
            message,
            "Port 8080 is already in use by 'node' (PID: 1234). Port 8083 is available."
        ),
        other => panic!("unexpected {:?}", other),
    }
    let e = port_in_use(8080, Platform::Other, |_| None, |a| port_of(&a) > 8090);
    assert_eq!(e.message(), "Port 8080 is already in use. Please choose a different port.");
}

#[test]
fn bind_failures_become_errors() {
    let calls = RefCell::new(0);
    let e = local_bind_error(
        8080,
        BindFailure::Other { reason: "Permission denied (os error 13)".to_string() },
        Platform::Unix,
        |_c: CommandLine| {
            *calls.borrow_mut() += 1;
            None
        },
        |_| {
            *calls.borrow_mut() += 1;
            true
        },
    );
    assert!(matches!(&e, TunnelError::BindFailed { message } if message == "Permission denied (os error 13)"));
    assert_eq!(*calls.borrow(), 0);
    let e = local_bind_error(
        8080,
        BindFailure::AddressInUse,
        Platform::Unix,
        |c: CommandLine| if c.program == "lsof" { ok("55") } else { failed() },
        |a| port_of(&a) == 8090,
    );
    match e {
        TunnelError::PortInUse { message } => {
            assert_eq!(message, "Port 8080 is already in use by PID 55. Port 8090 is available.")
        }
        other => panic!("unexpected {:?}", other),
    }
}

#[test]
fn every_tunnel_error_has_its_text() {
    let texts = [
        TunnelError::PortInUse { message: "a".to_string() },
        TunnelError::BindFailed { message: "b".to_string() },
        TunnelError::RemoteForward { message: "c".to_string() },
        TunnelError::ChannelOpen { message: "d".to_string() },
    ];
    let got: Vec<&str> = texts.iter().map(|e| e.message().as_str()).collect();
    assert_eq!(got, vec!["a", "b", "c", "d"]);
}
