//! Reading the port forwardings out of an `ssh` command line.
//!
//! A local forwarding is written `-L [bind:]local_port:remote_host:remote_port`,
//! a remote one `-R [bind:]remote_port:local_host:local_port`. The flags are
//! found by two regular expressions; what is made of each match is decided
//! here.

use crate::text::{
    decimal, join, join_parts, parse_number, parse_unsigned, push_decimal, split_words, text_of,
    texts, to_chars, words,
};
use vstd::prelude::*;
use vstd::string::*;

verus! {

/// What `regex::Regex::captures_iter` yields for the regular expression
/// `pattern` on `text`: for each match, in order, the texts of its groups, the
/// whole match first, with nothing for a group that took no part. It is nothing
/// at all where `regex::Regex::new` does not accept the pattern.
pub uninterp spec fn regex_captures(pattern: Seq<char>, text: Seq<char>) -> Option<
    Seq<Seq<Option<Seq<char>>>>,
>;

/// The texts of the groups of a list of matches.
pub open spec fn group_texts(found: Option<Vec<Vec<Option<String>>>>) -> Option<
    Seq<Seq<Option<Seq<char>>>>,
> {
    match found {
        Some(matches) => Some(match_texts(matches@)),
        None => None,
    }
}

/// The texts of the groups of a list of matches.
pub open spec fn match_texts(matches: Seq<Vec<Option<String>>>) -> Seq<Seq<Option<Seq<char>>>> {
    matches.map_values(|m: Vec<Option<String>>| m@.map_values(|g: Option<String>| text_of(g)))
}

/// `regex::Regex::new` on `pattern`, then `Regex::captures_iter` on `text`:
/// every match of the pattern in the text, from left to right and without
/// overlap, each as the texts of its groups. Nothing where the pattern is not
/// accepted.
#[verifier::external_body]
fn find_captures(pattern: &str, text: &str) -> (found: Option<Vec<Vec<Option<String>>>>)
    ensures
        group_texts(found) == regex_captures(pattern@, text@),
{
    let re = regex::Regex::new(pattern).ok()?;
    Some(
        re.captures_iter(text).map(
            |c| c.iter().map(|g| g.map(|m| m.as_str().to_string())).collect(),
        ).collect(),
    )
}

/// The regular expression for a local forwarding. Its groups are the local
/// port, the remote host and the remote port.
pub const LOCAL_FORWARD_PATTERN: &'static str =
    r"-L\s+(?:(?:\d+\.\d+\.\d+\.\d+|\[[:a-fA-F0-9]+\]):)?(\d+):([^:\s]+):(\d+)";

/// The regular expression for a remote forwarding. Its groups are the remote
/// port, the local host and the local port.
pub const REMOTE_FORWARD_PATTERN: &'static str =
    r"-R\s+(?:(?:\d+\.\d+\.\d+\.\d+|\[[:a-fA-F0-9]+\]):)?(\d+):([^:\s]+):(\d+)";

/// A forwarding found in a command line. `tunnel_type` is `"local"` or
/// `"remote"`; `remote_host` is the host at the far end of the forwarding.
#[derive(Debug, Clone)]
pub struct ParsedTunnel {
    pub tunnel_type: String,
    pub local_port: u16,
    pub remote_host: String,
    pub remote_port: u16,
    pub name: Option<String>,
}

/// What was made of a command line. `success` says that at least one
/// forwarding was found and nothing was wrong.
#[derive(Debug)]
pub struct ParseResult {
    pub success: bool,
    pub tunnels: Vec<ParsedTunnel>,
    pub errors: Vec<String>,
}

/// A forwarding found in a command line, as text and numbers.
pub ghost struct TunnelRecord {
    pub tunnel_type: Seq<char>,
    pub local_port: u16,
    pub remote_host: Seq<char>,
    pub remote_port: u16,
    pub name: Option<Seq<char>>,
}

/// What was made of a command line, as text and numbers.
pub ghost struct ParseRecord {
    pub success: bool,
    pub tunnels: Seq<TunnelRecord>,
    pub errors: Seq<Seq<char>>,
}

impl View for ParsedTunnel {
    type V = TunnelRecord;

    open spec fn view(&self) -> TunnelRecord {
        TunnelRecord {
            tunnel_type: self.tunnel_type@,
            local_port: self.local_port,
            remote_host: self.remote_host@,
            remote_port: self.remote_port,
            name: text_of(self.name),
        }
    }
}

impl View for ParseResult {
    type V = ParseRecord;

    open spec fn view(&self) -> ParseRecord {
        ParseRecord {
            success: self.success,
            tunnels: self.tunnels@.map_values(|t: ParsedTunnel| t@),
            errors: texts(self.errors@),
        }
    }
}

/// The direction of a forwarding.
#[derive(Clone, Copy, Debug, PartialEq, Eq, Structural)]
pub enum Direction {
    Local,
    Remote,
}

impl Direction {
    /// The word for the direction in a `ParsedTunnel`.
    pub open spec fn word(self) -> Seq<char> {
        match self {
            Direction::Local => "local"@,
            Direction::Remote => "remote"@,
        }
    }

    /// The letter of the direction's flag.
    pub open spec fn flag(self) -> Seq<char> {
        match self {
            Direction::Local => "L"@,
            Direction::Remote => "R"@,
        }
    }

    /// The word for the direction at the head of a forwarding's name.
    pub open spec fn title(self) -> Seq<char> {
        match self {
            Direction::Local => "Local"@,
            Direction::Remote => "Remote"@,
        }
    }
}

/// The command line with each backslash that ends a line, and the line break
/// after it, replaced by a space.
pub open spec fn unfolded(s: Seq<char>) -> Seq<char>
    decreases s.len(),
{
    if s.len() == 0 {
        s
    } else if s.len() >= 2 && s[0] == '\\' && s[1] == '\n' {
        seq![' '] + unfolded(s.skip(2))
    } else {
        seq![s[0]] + unfolded(s.skip(1))
    }
}

/// The command as one line: its words, with one space between each two.
pub open spec fn cleaned(command: Seq<char>) -> Seq<char> {
    join(words(unfolded(command)), " "@)
}

/// The forwarding that the three texts of a flag stand for: the port that is
/// listened on, the host and the port at the other end. Both ports must be
/// numbers of 16 bits.
pub open spec fn tunnel_of(
    direction: Direction,
    listen: Seq<char>,
    host: Seq<char>,
    target: Seq<char>,
) -> Option<TunnelRecord> {
    match (parse_unsigned(listen, 0xffff), parse_unsigned(target, 0xffff)) {
        (Some(listen_port), Some(target_port)) => Some(
            TunnelRecord {
                tunnel_type: direction.word(),
                local_port: match direction {
                    Direction::Local => listen_port as u16,
                    Direction::Remote => target_port as u16,
                },
                remote_host: host,
                remote_port: match direction {
                    Direction::Local => target_port as u16,
                    Direction::Remote => listen_port as u16,
                },
                name: Some(
                    direction.title() + " "@ + decimal(listen_port) + " \u{2192} "@ + host + ":"@
                        + decimal(target_port),
                ),
            },
        ),
        _ => None,
    }
}

/// The complaint about a flag whose ports are not both numbers of 16 bits.
pub open spec fn port_error(
    direction: Direction,
    listen: Seq<char>,
    host: Seq<char>,
    target: Seq<char>,
) -> Seq<char> {
    "Invalid port numbers in -"@ + direction.flag() + " flag: "@ + listen + ":"@ + host + ":"@
        + target
}

/// Whether a match has the three groups of a flag.
pub open spec fn has_fields(groups: Seq<Option<Seq<char>>>) -> bool {
    groups.len() > 3 && groups[1] is Some && groups[2] is Some && groups[3] is Some
}

/// The forwardings that the matches of one direction's flag give, in order. A
/// match without the three groups gives nothing.
pub open spec fn tunnels_in(direction: Direction, matches: Seq<Seq<Option<Seq<char>>>>) -> Seq<
    TunnelRecord,
>
    decreases matches.len(),
{
    if matches.len() == 0 {
        seq![]
    } else {
        let before = tunnels_in(direction, matches.drop_last());
        let groups = matches.last();
        if has_fields(groups) {
            match tunnel_of(direction, groups[1]->0, groups[2]->0, groups[3]->0) {
                Some(tunnel) => before.push(tunnel),
                None => before,
            }
        } else {
            before
        }
    }
}

/// The complaints that the matches of one direction's flag give, in order.
pub open spec fn port_errors_in(direction: Direction, matches: Seq<Seq<Option<Seq<char>>>>) -> Seq<
    Seq<char>,
>
    decreases matches.len(),
{
    if matches.len() == 0 {
        seq![]
    } else {
        let before = port_errors_in(direction, matches.drop_last());
        let groups = matches.last();
        if has_fields(groups) && tunnel_of(
            direction,
            groups[1]->0,
            groups[2]->0,
            groups[3]->0,
        ) is None {
            before.push(port_error(direction, groups[1]->0, groups[2]->0, groups[3]->0))
        } else {
            before
        }
    }
}

/// The port by which a forwarding is told from others of its direction: the
/// one that is listened on.
pub open spec fn listen_port(tunnel: TunnelRecord) -> u16 {
    if tunnel.tunnel_type == "local"@ {
        tunnel.local_port
    } else {
        tunnel.remote_port
    }
}

/// Whether the forwarding at `i` listens where an earlier one of its direction
/// does.
pub open spec fn repeats(tunnels: Seq<TunnelRecord>, i: int) -> bool {
    exists|j: int|
        0 <= j < i && (#[trigger] tunnels[j]).tunnel_type == tunnels[i].tunnel_type && listen_port(
            tunnels[j],
        ) == listen_port(tunnels[i])
}

/// The complaint about a forwarding that repeats an earlier one.
pub open spec fn duplicate_error(tunnel: TunnelRecord) -> Seq<char> {
    "Duplicate "@ + tunnel.tunnel_type + " port: "@ + decimal(listen_port(tunnel) as nat)
}

/// The complaints about the first `n` forwardings that repeat an earlier one,
/// in order.
pub open spec fn duplicate_errors(tunnels: Seq<TunnelRecord>, n: int) -> Seq<Seq<char>>
    decreases n,
{
    if n <= 0 {
        seq![]
    } else if repeats(tunnels, n - 1) {
        duplicate_errors(tunnels, n - 1).push(duplicate_error(tunnels[n - 1]))
    } else {
        duplicate_errors(tunnels, n - 1)
    }
}

/// What is made of the matches of the two flags: the local forwardings, then the
/// remote ones; the complaints about ports in the same order, then one about a
/// command without any forwarding, then those about repeated forwardings.
pub open spec fn outcome_of(
    local: Seq<Seq<Option<Seq<char>>>>,
    remote: Seq<Seq<Option<Seq<char>>>>,
) -> ParseRecord {
    let tunnels = tunnels_in(Direction::Local, local) + tunnels_in(Direction::Remote, remote);
    let missing = if tunnels.len() == 0 {
        seq!["No -L or -R tunnel flags found in command"@]
    } else {
        seq![]
    };
    let errors = port_errors_in(Direction::Local, local) + port_errors_in(
        Direction::Remote,
        remote,
    ) + missing + duplicate_errors(tunnels, tunnels.len() as int);
    ParseRecord { success: tunnels.len() > 0 && errors.len() == 0, tunnels, errors }
}

/// The matches that a search gave; none where the pattern was not accepted.
pub open spec fn matches_or_none(found: Option<Seq<Seq<Option<Seq<char>>>>>) -> Seq<
    Seq<Option<Seq<char>>>,
> {
    match found {
        Some(matches) => matches,
        None => seq![],
    }
}

/// The command as one line: its words, with one space between each two, after
/// each backslash that ends a line has been taken for a space.
pub fn clean_command(command: &str) -> (line: String)
    ensures
        line@ == cleaned(command@),
{
    let chars = to_chars(command);
    let mut flat: Vec<char> = Vec::new();
    let mut i: usize = 0;
    assert(chars@.skip(0) == chars@);
    while i < chars.len()
        invariant
            i <= chars@.len(),
            chars@ == command@,
            unfolded(chars@) == flat@ + unfolded(chars@.skip(i as int)),
        decreases chars@.len() - i,
    {
        let ghost rest = chars@.skip(i as int);
        if chars[i] == '\\' && i + 1 < chars.len() && chars[i + 1] == '\n' {
            assert(rest.skip(2) == chars@.skip(i + 2));
            flat.push(' ');
            i += 2;
        } else {
            assert(rest.skip(1) == chars@.skip(i + 1));
            flat.push(chars[i]);
            i += 1;
        }
    }
    let parts = split_words(flat.as_slice());
    let space = to_chars(" ");
    join_parts(&parts, space.as_slice())
}

fn direction_word(direction: Direction) -> (word: &'static str)
    ensures
        word@ == direction.word(),
{
    match direction {
        Direction::Local => "local",
        Direction::Remote => "remote",
    }
}

fn read_forward(direction: Direction, listen: &str, host: &str, target: &str) -> (r: Result<
    ParsedTunnel,
    String,
>)
    ensures
        match r {
            Ok(tunnel) => tunnel_of(direction, listen@, host@, target@) == Some(tunnel@),
            Err(error) => tunnel_of(direction, listen@, host@, target@) is None && error@
                == port_error(direction, listen@, host@, target@),
        },
{
    let listen_chars = to_chars(listen);
    let target_chars = to_chars(target);
    let ports = (
        parse_number(listen_chars.as_slice(), 0xffff),
        parse_number(target_chars.as_slice(), 0xffff),
    );
    match ports {
        (Some(listen_port), Some(target_port)) => {
            let mut name = match direction {
                Direction::Local => "Local".to_string(),
                Direction::Remote => "Remote".to_string(),
            };
            name.append(" ");
            push_decimal(&mut name, listen_port as u64);
            name.append(" \u{2192} ");
            name.append(host);
            name.append(":");
            push_decimal(&mut name, target_port as u64);
            let (local_port, remote_port) = match direction {
                Direction::Local => (listen_port as u16, target_port as u16),
                Direction::Remote => (target_port as u16, listen_port as u16),
            };
            Ok(
                ParsedTunnel {
                    tunnel_type: direction_word(direction).to_string(),
                    local_port,
                    remote_host: host.to_string(),
                    remote_port,
                    name: Some(name),
                },
            )
        },
        _ => {
            let mut error = "Invalid port numbers in -".to_string();
            error.append(
                match direction {
                    Direction::Local => "L",
                    Direction::Remote => "R",
                },
            );
            error.append(" flag: ");
            error.append(listen);
            error.append(":");
            error.append(host);
            error.append(":");
            error.append(target);
            Err(error)
        },
    }
}

/// The records of a list of forwardings.
pub open spec fn tunnel_records(tunnels: Seq<ParsedTunnel>) -> Seq<TunnelRecord> {
    tunnels.map_values(|t: ParsedTunnel| t@)
}

fn read_forwards(
    direction: Direction,
    matches: &Vec<Vec<Option<String>>>,
    tunnels: &mut Vec<ParsedTunnel>,
    errors: &mut Vec<String>,
)
    ensures
        tunnel_records(final(tunnels)@) == tunnel_records(old(tunnels)@) + tunnels_in(
            direction,
            match_texts(matches@),
        ),
        texts(final(errors)@) == texts(old(errors)@) + port_errors_in(
            direction,
            match_texts(matches@),
        ),
{
    let ghost all = match_texts(matches@);
    let mut i: usize = 0;
    while i < matches.len()
        invariant
            i <= matches@.len(),
            all == match_texts(matches@),
            tunnel_records(tunnels@) == tunnel_records(old(tunnels)@) + tunnels_in(
                direction,
                all.take(i as int),
            ),
            texts(errors@) == texts(old(errors)@) + port_errors_in(
                direction,
                all.take(i as int),
            ),
        decreases matches@.len() - i,
    {
        let groups = &matches[i];
        assert(all.take(i + 1).drop_last() == all.take(i as int));
        let ghost tunnels_before = tunnels@;
        let ghost errors_before = errors@;
        if groups.len() > 3 {
            match (&groups[1], &groups[2], &groups[3]) {
                (Some(listen), Some(host), Some(target)) => {
                    match read_forward(direction, listen.as_str(), host.as_str(), target.as_str()) {
                        Ok(tunnel) => {
                            tunnels.push(tunnel);
                            assert(tunnel_records(tunnels@) == tunnel_records(tunnels_before).push(
                                tunnel@,
                            ));
                        },
                        Err(error) => {
                            errors.push(error);
                            assert(texts(errors@) == texts(
                                errors_before,
                            ).push(error@));
                        },
                    }
                },
                _ => {},
            }
        }
        i += 1;
    }
    assert(all.take(i as int) == all);
}

fn listens_on(tunnel: &ParsedTunnel) -> (port: u16)
    ensures
        port == listen_port(tunnel@),
{
    let local = "local".to_string();
    if tunnel.tunnel_type == local {
        tunnel.local_port
    } else {
        tunnel.remote_port
    }
}

fn is_repeat(tunnels: &Vec<ParsedTunnel>, i: usize) -> (r: bool)
    requires
        i < tunnels@.len(),
    ensures
        r == repeats(tunnel_records(tunnels@), i as int),
{
    let ghost records = tunnel_records(tunnels@);
    let port = listens_on(&tunnels[i]);
    let mut j: usize = 0;
    while j < i
        invariant
            j <= i < tunnels@.len(),
            records == tunnel_records(tunnels@),
            port == listen_port(records[i as int]),
            forall|k: int|
                0 <= k < j ==> !{
                    &&& (#[trigger] records[k]).tunnel_type == records[i as int].tunnel_type
                    &&& listen_port(records[k]) == port
                },
        decreases i - j,
    {
        if tunnels[j].tunnel_type == tunnels[i].tunnel_type && listens_on(&tunnels[j]) == port {
            assert(records[j as int].tunnel_type == records[i as int].tunnel_type);
            return true;
        }
        j += 1;
    }
    false
}

/// Makes forwardings of the matches of the two flags' regular expressions in a
/// command line. Each match is the list of its groups' texts, the whole match
/// first.
pub fn tunnels_from_matches(
    local: &Vec<Vec<Option<String>>>,
    remote: &Vec<Vec<Option<String>>>,
) -> (result: ParseResult)
    ensures
        result@ == outcome_of(match_texts(local@), match_texts(remote@)),
{
    let mut tunnels: Vec<ParsedTunnel> = Vec::new();
    let mut errors: Vec<String> = Vec::new();
    read_forwards(Direction::Local, local, &mut tunnels, &mut errors);
    read_forwards(Direction::Remote, remote, &mut tunnels, &mut errors);
    if tunnels.len() == 0 {
        errors.push("No -L or -R tunnel flags found in command".to_string());
    }
    let ghost records = tunnel_records(tunnels@);
    let ghost earlier = texts(errors@);
    let ghost expected = outcome_of(match_texts(local@), match_texts(remote@));
    let mut i: usize = 0;
    while i < tunnels.len()
        invariant
            i <= tunnels@.len(),
            records == tunnel_records(tunnels@),
            records == expected.tunnels,
            earlier + duplicate_errors(records, records.len() as int) == expected.errors,
            expected == outcome_of(match_texts(local@), match_texts(remote@)),
            texts(errors@) == earlier + duplicate_errors(records, i as int),
        decreases tunnels@.len() - i,
    {
        if is_repeat(&tunnels, i) {
            let ghost errors_before = errors@;
            let kind = tunnels[i].tunnel_type.clone();
            let mut error = "Duplicate ".to_string();
            error.append(kind.as_str());
            error.append(" port: ");
            push_decimal(&mut error, listens_on(&tunnels[i]) as u64);
            errors.push(error);
            assert(texts(errors@) == texts(errors_before).push(error@));
        }
        i += 1;
    }
    let success = tunnels.len() > 0 && errors.len() == 0;
    ParseResult { success, tunnels, errors }
}

/// Reads the port forwardings out of an `ssh` command line. The command is
/// first brought onto one line, then searched for both flags.
pub fn parse_ssh_command(command: &str) -> (result: ParseResult)
    ensures
        result@ == outcome_of(
            matches_or_none(regex_captures(LOCAL_FORWARD_PATTERN@, cleaned(command@))),
            matches_or_none(regex_captures(REMOTE_FORWARD_PATTERN@, cleaned(command@))),
        ),
{
    let line = clean_command(command);
    let local = match find_captures(LOCAL_FORWARD_PATTERN, line.as_str()) {
        Some(matches) => matches,
        None => Vec::new(),
    };
    let remote = match find_captures(REMOTE_FORWARD_PATTERN, line.as_str()) {
        Some(matches) => matches,
        None => Vec::new(),
    };
    tunnels_from_matches(&local, &remote)
}

} // verus!
