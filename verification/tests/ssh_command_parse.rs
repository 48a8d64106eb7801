use zync_core::ssh_parser::{clean_command, parse_ssh_command, tunnels_from_matches};

fn m(a: &str, b: &str, c: &str) -> Vec<Option<String>> {
    vec![Some(format!("{}:{}:{}", a, b, c)), Some(a.to_string()), Some(b.to_string()), Some(c.to_string())]
}

#[test]
fn two_flags_give_two_forwardings() {
    let r = parse_ssh_command("ssh -L 8080:db:5432 -R 9000:localhost:3000 host");
    assert!(r.success);
    assert!(r.errors.is_empty());
    assert_eq!(r.tunnels.len(), 2);
    assert_eq!(r.tunnels[0].tunnel_type, "local");
    assert_eq!(r.tunnels[0].local_port, 8080);
    assert_eq!(r.tunnels[0].remote_host, "db");
    assert_eq!(r.tunnels[0].remote_port, 5432);
    assert_eq!(r.tunnels[0].name.as_deref(), Some("Local 8080 \u{2192} db:5432"));
    assert_eq!(r.tunnels[1].tunnel_type, "remote");
    assert_eq!(r.tunnels[1].local_port, 3000);
    assert_eq!(r.tunnels[1].remote_host, "localhost");
    assert_eq!(r.tunnels[1].remote_port, 9000);
    assert_eq!(r.tunnels[1].name.as_deref(), Some("Remote 9000 \u{2192} localhost:3000"));
}

#[test]
fn command_without_flags() {
    let r = parse_ssh_command("ssh user@host");
    assert!(!r.success);
    assert!(r.tunnels.is_empty());
    assert_eq!(r.errors, vec!["No -L or -R tunnel flags found in command"]);
    let r = parse_ssh_command("");
    assert_eq!(r.errors, vec!["No -L or -R tunnel flags found in command"]);
}

#[test]
fn bind_addresses_are_skipped() {
    let r = parse_ssh_command("ssh -L 127.0.0.1:8080:db:5432 -R [::1]:9000:localhost:3000 h");
    assert!(r.success);
    assert_eq!(r.tunnels.len(), 2);
    assert_eq!(r.tunnels[0].local_port, 8080);
    assert_eq!(r.tunnels[0].remote_port, 5432);
    assert_eq!(r.tunnels[1].remote_port, 9000);
    assert_eq!(r.tunnels[1].local_port, 3000);
}

#[test]
fn continued_lines_are_joined() {
    let r = parse_ssh_command("ssh \\\n  -L\n8080:db:5432 \\\n\t-L   8081:db:5433\\\nhost");
    assert!(r.success);
    assert_eq!(r.tunnels.len(), 2);
    assert_eq!(r.tunnels[1].local_port, 8081);
    assert_eq!(r.tunnels[1].remote_port, 5433);
}

#[test]
fn cleaning_collapses_white_space() {
    assert_eq!(clean_command("  ssh   -L \t 1:a:2 \n"), "ssh -L 1:a:2");
    assert_eq!(clean_command("a\\\nb"), "a b");
    assert_eq!(clean_command("a\\\n\\\nb"), "a b");
    assert_eq!(clean_command("a\\b\\"), "a\\b\\");
    assert_eq!(clean_command(""), "");
    assert_eq!(clean_command(" \n "), "");
    assert_eq!(clean_command("one"), "one");
}

#[test]
fn ports_out_of_range_are_errors() {
    let r = parse_ssh_command("ssh -L 70000:db:5432 -R 9000:h:99999 -L 1:a:2");
    assert!(!r.success);
    assert_eq!(r.tunnels.len(), 1);
    assert_eq!(
        r.errors,
        vec![
            "Invalid port numbers in -L flag: 70000:db:5432",
            "Invalid port numbers in -R flag: 9000:h:99999",
        ]
    );
}

#[test]
fn only_bad_flags_give_both_errors() {
    let r = parse_ssh_command("ssh -L 70000:db:5432");
    assert!(!r.success);
    assert_eq!(
        r.errors,
        vec![
            "Invalid port numbers in -L flag: 70000:db:5432",
            "No -L or -R tunnel flags found in command",
        ]
    );
}

#[test]
fn duplicate_ports_are_errors() {
    let r = parse_ssh_command("ssh -L 8080:a:1 -L 8080:b:2 -R 8080:c:3 -R 8080:d:4 -L 8080:e:5");
    assert!(!r.success);
    assert_eq!(r.tunnels.len(), 5);
    assert_eq!(
        r.errors,
        vec!["Duplicate local port: 8080", "Duplicate local port: 8080", "Duplicate remote port: 8080"]
    );
    let r = parse_ssh_command("ssh -L 8080:a:1 -R 8080:a:1 -L 1:a:8080");
    assert!(r.success);
}

#[test]
fn leading_zeros_are_read_as_numbers() {
    let r = parse_ssh_command("ssh -L 0080:a:022");
    assert!(r.success);
    assert_eq!(r.tunnels[0].local_port, 80);
    assert_eq!(r.tunnels[0].remote_port, 22);
    assert_eq!(r.tunnels[0].name.as_deref(), Some("Local 80 \u{2192} a:22"));
}

#[test]
fn matches_are_read_in_order() {
    let local = vec![m("1", "a", "2"), m("x", "b", "3"), vec![Some("nothing".to_string())], m("4", "c", "5")];
    let remote = vec![m("6", "d", "7"), vec![Some("w".to_string()), Some("1".to_string()), None, Some("2".to_string())]];
    let r = tunnels_from_matches(&local, &remote);
    assert!(!r.success);
    assert_eq!(r.tunnels.len(), 3);
    assert_eq!(r.tunnels[0].local_port, 1);
    assert_eq!(r.tunnels[1].local_port, 4);
    assert_eq!(r.tunnels[2].tunnel_type, "remote");
    assert_eq!(r.tunnels[2].remote_port, 6);
    assert_eq!(r.tunnels[2].local_port, 7);
    assert_eq!(r.tunnels[2].remote_host, "d");
    assert_eq!(r.errors, vec!["Invalid port numbers in -L flag: x:b:3"]);
    let r = tunnels_from_matches(&vec![], &vec![]);
    assert!(!r.success);
    assert_eq!(r.errors, vec!["No -L or -R tunnel flags found in command"]);
}
