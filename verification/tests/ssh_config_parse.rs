use zync_core::ssh_config::{
    assign_ids, expand_home_path, parse_config, parse_hosts, resolve_jump_servers,
    ParsedSshConnection,
};

fn chars(s: &str) -> Vec<char> {
    s.chars().collect()
}

fn host(name: &str) -> ParsedSshConnection {
    ParsedSshConnection {
        id: String::new(),
        name: name.to_string(),
        host: String::new(),
        username: "me".to_string(),
        port: 22,
        private_key_path: None,
        jump_server_alias: None,
        jump_server_id: None,
    }
}

const SAMPLE: &str = "# my hosts\n\nHost bastion\n  HostName bastion.example.com\n  User b\n  Port 2222\n  IdentityFile ~/.ssh/id_bastion\n\nHost inner\n\tHostName=10.0.0.5\n\tProxyJump bastion\n\nHost *\n  User everyone\n\nHost web-?\n  Port 80\n";

#[test]
fn hosts_are_read_in_order() {
    let hosts = parse_hosts(SAMPLE, "me", Some("/home/me"));
    assert_eq!(hosts.len(), 2);
    assert_eq!(hosts[0].name, "bastion");
    assert_eq!(hosts[0].host, "bastion.example.com");
    assert_eq!(hosts[0].username, "b");
    assert_eq!(hosts[0].port, 2222);
    assert_eq!(hosts[0].private_key_path.as_deref(), Some("/home/me/.ssh/id_bastion"));
    assert_eq!(hosts[0].jump_server_alias, None);
    assert_eq!(hosts[0].jump_server_id, None);
    assert_eq!(hosts[0].id, "");
    assert_eq!(hosts[1].name, "inner");
    assert_eq!(hosts[1].host, "10.0.0.5");
    assert_eq!(hosts[1].username, "me");
    assert_eq!(hosts[1].port, 22);
    assert_eq!(hosts[1].private_key_path, None);
    assert_eq!(hosts[1].jump_server_alias.as_deref(), Some("bastion"));
}

#[test]
fn empty_and_comment_only_files_hold_no_hosts() {
    assert!(parse_hosts("", "me", None).is_empty());
    assert!(parse_hosts("\n\n  \n", "me", None).is_empty());
    assert!(parse_hosts("# Host a\n   # Host b", "me", None).is_empty());
    assert!(parse_hosts("HostName orphan\nUser nobody\n", "me", None).is_empty());
}

#[test]
fn keywords_ignore_case_and_accept_equals() {
    let hosts = parse_hosts("HOST a\nhostname = h.example\nUSER=u\npOrT =  2200\n", "me", None);
    assert_eq!(hosts.len(), 1);
    assert_eq!(hosts[0].name, "a");
    assert_eq!(hosts[0].host, "h.example");
    assert_eq!(hosts[0].username, "u");
    assert_eq!(hosts[0].port, 2200);
}

#[test]
fn the_whole_value_is_the_name() {
    let hosts = parse_hosts("Host a b\nHost\nHost c", "me", None);
    assert_eq!(hosts.len(), 3);
    assert_eq!(hosts[0].name, "a b");
    assert_eq!(hosts[1].name, "");
    assert_eq!(hosts[2].name, "c");
}

#[test]
fn a_port_that_is_no_number_is_ignored() {
    let hosts = parse_hosts("Host a\nPort 70000\nHost b\nPort x\nHost c\nPort +23\nHost d\nPort 8022 # ssh", "me", None);
    assert_eq!(hosts[0].port, 22);
    assert_eq!(hosts[1].port, 22);
    assert_eq!(hosts[2].port, 23);
    assert_eq!(hosts[3].port, 22);
}

#[test]
fn later_directives_replace_earlier_ones() {
    let hosts = parse_hosts("Host a\nUser x\nUser y\nHostName one\nHostName two\nUnknown z", "me", None);
    assert_eq!(hosts[0].username, "y");
    assert_eq!(hosts[0].host, "two");
}

#[test]
fn identity_files_lose_quotes_and_gain_home() {
    let hosts = parse_hosts(
        "Host a\nIdentityFile \"~/.ssh/a b\"\nHost b\nIdentityFile '/abs/key'\nHost c\nIdentityFile ~\nHost d\nIdentityFile \"'~/x'\"\nHost e\nIdentityFile key~",
        "me",
        Some("/home/me"),
    );
    assert_eq!(hosts[0].private_key_path.as_deref(), Some("/home/me/.ssh/a b"));
    assert_eq!(hosts[1].private_key_path.as_deref(), Some("/abs/key"));
    assert_eq!(hosts[2].private_key_path.as_deref(), Some("/home/me"));
    assert_eq!(hosts[3].private_key_path.as_deref(), Some("/home/me/x"));
    assert_eq!(hosts[4].private_key_path.as_deref(), Some("key~"));
    let hosts = parse_hosts("Host a\nIdentityFile ~/.ssh/id", "me", None);
    assert_eq!(hosts[0].private_key_path.as_deref(), Some("~/.ssh/id"));
}

#[test]
fn home_expansion() {
    assert_eq!(expand_home_path(&chars("~/.ssh/id"), Some("/root")), "/root/.ssh/id");
    assert_eq!(expand_home_path(&chars("~"), Some("/root")), "/root");
    assert_eq!(expand_home_path(&chars("/etc/~key"), Some("/root")), "/etc/~key");
    assert_eq!(expand_home_path(&chars("~/.ssh/id"), None), "~/.ssh/id");
    assert_eq!(expand_home_path(&chars(""), Some("/root")), "");
}

#[test]
fn windows_line_ends_and_odd_spaces() {
    let hosts = parse_hosts("Host a\r\n\tHostName h\u{a0}\r\n  User\u{3000}u\r\n", "me", None);
    assert_eq!(hosts.len(), 1);
    assert_eq!(hosts[0].name, "a");
    assert_eq!(hosts[0].host, "h");
    assert_eq!(hosts[0].username, "u");
}

#[test]
fn ids_are_assigned_in_order() {
    let hosts = vec![host("a"), host("b")];
    let out = assign_ids(hosts, &vec!["one".to_string(), "two".to_string()]);
    assert_eq!(out[0].id, "ssh_one");
    assert_eq!(out[1].id, "ssh_two");
    assert_eq!(out[0].name, "a");
}

#[test]
fn jump_servers_resolve_to_the_last_host_of_the_name() {
    let mut a = host("gate");
    a.id = "ssh_1".to_string();
    let mut b = host("inner");
    b.id = "ssh_2".to_string();
    b.jump_server_alias = Some("gate".to_string());
    let mut c = host("gate");
    c.id = "ssh_3".to_string();
    c.jump_server_alias = Some("nowhere".to_string());
    let mut d = host("self");
    d.id = "ssh_4".to_string();
    d.jump_server_alias = Some("self".to_string());
    let out = resolve_jump_servers(vec![a, b, c, d]);
    assert_eq!(out[0].jump_server_id, None);
    assert_eq!(out[1].jump_server_id.as_deref(), Some("ssh_3"));
    assert_eq!(out[2].jump_server_id, None);
    assert_eq!(out[3].jump_server_id.as_deref(), Some("ssh_4"));
}

#[test]
fn parse_config_gives_fresh_ids_and_resolves_jumps() {
    let hosts = parse_config(SAMPLE);
    assert_eq!(hosts.len(), 2);
    for h in &hosts {
        assert!(h.id.starts_with("ssh_"));
        assert_eq!(h.id.len(), 40);
        let uuid = &h.id[4..];
        for (i, c) in uuid.chars().enumerate() {
            if i == 8 || i == 13 || i == 18 || i == 23 {
                assert_eq!(c, '-');
            } else {
                assert!(c.is_ascii_digit() || ('a'..='f').contains(&c));
            }
        }
    }
    assert_ne!(hosts[0].id, hosts[1].id);
    assert_eq!(hosts[1].jump_server_id.as_ref(), Some(&hosts[0].id));
    assert_eq!(hosts[0].jump_server_id, None);
    assert!(!hosts[1].username.is_empty());
}

#[test]
fn every_parsed_host_is_a_plain_name_with_a_resolvable_jump() {
    let hosts = parse_config("Host a\nProxyJump b\nHost b\nProxyJump missing\nHost c*\nHost d\nProxyJump a");
    assert_eq!(hosts.len(), 3);
    for h in &hosts {
        assert!(!h.name.contains('*') && !h.name.contains('?'));
        if let Some(id) = &h.jump_server_id {
            let alias = h.jump_server_alias.as_ref().unwrap();
            assert!(hosts.iter().any(|o| &o.id == id && &o.name == alias));
        }
    }
    assert!(hosts[0].jump_server_id.is_some());
    assert!(hosts[1].jump_server_id.is_none());
    assert!(hosts[2].jump_server_id.is_some());
}
