//! Reading the hosts out of an OpenSSH client configuration.
//!
//! The file is read line by line. Blank lines and lines that begin with `#` say
//! nothing. Every other line is a keyword and a value, with white space or `=`
//! between them. `Host` begins a host; `HostName`, `User`, `Port`,
//! `IdentityFile` and `ProxyJump` describe the host that was begun last.
//! Keywords are told apart without regard to the case of their letters. A host
//! whose name holds `*` or `?` is a pattern and is left out.

use crate::text::{
    ascii_lowered, find_in_set, from_chars, is_word_ignoring_case, parse_number, parse_unsigned,
    push_chars, skip_leading, span_outside, split, split_on, strip, strip_of, text_of, text_of_str,
    texts, to_chars, trim, trim_start_of, trimmed, views, CharSet,
};
use vstd::hash_map::StringHashMap;
use vstd::prelude::*;
use vstd::slice::slice_subrange;
use vstd::string::*;

verus! {

/// `whoami::username`: the name of the user who runs the process, or a default
/// where the system gives none. Nothing is claimed of it.
#[verifier::external_body]
fn current_username() -> String {
    whoami::username()
}

/// `dirs::home_dir`: the home directory of the user who runs the process, where
/// the system names one, as text. Nothing is claimed of it.
#[verifier::external_body]
pub(crate) fn home_directory() -> Option<String> {
    dirs::home_dir().map(|home| home.to_string_lossy().into_owned())
}

/// `uuid::Uuid::new_v4`, written out: a random identifier of 32 hexadecimal
/// digits in lower case, in five groups with a hyphen after the digits 8, 12, 16
/// and 20.
#[verifier::external_body]
fn random_uuid() -> (text: String)
    ensures
        is_uuid_text(text@),
{
    uuid::Uuid::new_v4().to_string()
}

/// Whether a text has the form in which a UUID is written.
pub open spec fn is_uuid_text(s: Seq<char>) -> bool {
    &&& s.len() == 36
    &&& forall|i: int|
        0 <= i < 36 ==> if i == 8 || i == 13 || i == 18 || i == 23 {
            #[trigger] s[i] == '-'
        } else {
            '0' <= s[i] <= '9' || 'a' <= s[i] <= 'f'
        }
}

/// A host of the configuration file.
#[derive(Debug, Clone)]
pub struct ParsedSshConnection {
    pub id: String,
    pub name: String,
    pub host: String,
    pub username: String,
    pub port: u16,
    pub private_key_path: Option<String>,
    pub jump_server_alias: Option<String>,
    pub jump_server_id: Option<String>,
}

/// A host of the configuration file, as text and numbers.
pub ghost struct HostRecord {
    pub id: Seq<char>,
    pub name: Seq<char>,
    pub host: Seq<char>,
    pub username: Seq<char>,
    pub port: u16,
    pub private_key_path: Option<Seq<char>>,
    pub jump_server_alias: Option<Seq<char>>,
    pub jump_server_id: Option<Seq<char>>,
}

impl View for ParsedSshConnection {
    type V = HostRecord;

    open spec fn view(&self) -> HostRecord {
        HostRecord {
            id: self.id@,
            name: self.name@,
            host: self.host@,
            username: self.username@,
            port: self.port,
            private_key_path: text_of(self.private_key_path),
            jump_server_alias: text_of(self.jump_server_alias),
            jump_server_id: text_of(self.jump_server_id),
        }
    }
}

/// The hosts of a list, as text and numbers.
pub open spec fn records_of(hosts: Seq<ParsedSshConnection>) -> Seq<HostRecord> {
    hosts.map_values(|h: ParsedSshConnection| h@)
}

/// How far the file has been read: the hosts that are complete, and the one
/// that the next lines describe.
pub ghost struct Scan {
    pub done: Seq<HostRecord>,
    pub current: Option<HostRecord>,
}

/// The keyword of a line: what stands before the first white space or `=`.
pub open spec fn keyword_of(line: Seq<char>) -> Seq<char> {
    line.take(span_outside(line, CharSet::WhitespaceOrEquals))
}

/// The value of a line: what stands after the keyword and the white space and
/// `=` signs that follow it.
pub open spec fn value_of(line: Seq<char>) -> Seq<char> {
    skip_leading(
        line.skip(span_outside(line, CharSet::WhitespaceOrEquals)),
        CharSet::WhitespaceOrEquals,
    )
}

/// Whether a host's name is a pattern.
pub open spec fn is_pattern(name: Seq<char>) -> bool {
    name.contains('*') || name.contains('?')
}

/// A path with a leading `~` replaced by the home directory, where one is
/// known.
pub open spec fn expand_home(path: Seq<char>, home: Option<Seq<char>>) -> Seq<char> {
    match home {
        Some(dir) => if path.len() > 0 && path[0] == '~' {
            dir + path.skip(1)
        } else {
            path
        },
        None => path,
    }
}

/// The path that an `IdentityFile` value names: the value without the double
/// quotes around it, then without the single quotes around that, with the home
/// directory for a leading `~`.
pub open spec fn identity_path(value: Seq<char>, home: Option<Seq<char>>) -> Seq<char> {
    expand_home(strip(strip(value, CharSet::Only('"')), CharSet::Only('\'')), home)
}

/// The host that a `Host` line begins: named by the line's value, on port 22,
/// for the given user.
pub open spec fn new_host(name: Seq<char>, username: Seq<char>) -> HostRecord {
    HostRecord {
        id: Seq::empty(),
        name,
        host: Seq::empty(),
        username,
        port: 22,
        private_key_path: None,
        jump_server_alias: None,
        jump_server_id: None,
    }
}

/// The host after a line with the given keyword, in lower case, and value.
pub open spec fn with_directive(
    host: HostRecord,
    keyword: Seq<char>,
    value: Seq<char>,
    home: Option<Seq<char>>,
) -> HostRecord {
    if keyword == "hostname"@ {
        HostRecord { host: value, ..host }
    } else if keyword == "user"@ {
        HostRecord { username: value, ..host }
    } else if keyword == "port"@ {
        match parse_unsigned(value, 0xffff) {
            Some(port) => HostRecord { port: port as u16, ..host },
            None => host,
        }
    } else if keyword == "identityfile"@ {
        HostRecord { private_key_path: Some(identity_path(value, home)), ..host }
    } else if keyword == "proxyjump"@ {
        HostRecord { jump_server_alias: Some(value), ..host }
    } else {
        host
    }
}

/// The complete hosts once the current one is closed: it joins them unless its
/// name is a pattern.
pub open spec fn closed(scan: Scan) -> Seq<HostRecord> {
    match scan.current {
        Some(host) => if is_pattern(host.name) {
            scan.done
        } else {
            scan.done.push(host)
        },
        None => scan.done,
    }
}

/// The state after one more line of the file.
pub open spec fn after_line(
    scan: Scan,
    raw: Seq<char>,
    username: Seq<char>,
    home: Option<Seq<char>>,
) -> Scan {
    let line = trimmed(raw);
    if line.len() == 0 || line[0] == '#' {
        scan
    } else if ascii_lowered(keyword_of(line)) == "host"@ {
        Scan { done: closed(scan), current: Some(new_host(value_of(line), username)) }
    } else {
        match scan.current {
            Some(host) => Scan {
                done: scan.done,
                current: Some(
                    with_directive(host, ascii_lowered(keyword_of(line)), value_of(line), home),
                ),
            },
            None => scan,
        }
    }
}

/// The hosts that a configuration file describes, in the order in which it
/// begins them, still without ids. `username` is the user of a host that names
/// none, `home` the directory that a leading `~` in a key's path stands for.
pub open spec fn hosts_in(content: Seq<char>, username: Seq<char>, home: Option<Seq<char>>) -> Seq<
    HostRecord,
> {
    closed(
        split(content, '\n').fold_left(
            Scan { done: Seq::empty(), current: None },
            |scan: Scan, raw: Seq<char>| after_line(scan, raw, username, home),
        ),
    )
}

/// The hosts with the ids made of `ssh_` and the given identifiers, one each,
/// in order. A host for which no identifier is left keeps its id.
pub open spec fn with_ids(hosts: Seq<HostRecord>, uuids: Seq<Seq<char>>) -> Seq<HostRecord> {
    Seq::new(
        hosts.len(),
        |i: int|
            if i < uuids.len() {
                HostRecord { id: "ssh_"@ + uuids[i], ..hosts[i] }
            } else {
                hosts[i]
            },
    )
}

/// The id of the last of `hosts` with the given name.
pub open spec fn id_of_name(hosts: Seq<HostRecord>, name: Seq<char>) -> Option<Seq<char>>
    decreases hosts.len(),
{
    if hosts.len() == 0 {
        None
    } else if hosts.last().name == name {
        Some(hosts.last().id)
    } else {
        id_of_name(hosts.drop_last(), name)
    }
}

/// A host with its jump server looked up among `hosts`: where it names one and
/// a host of that name is there, it gets that host's id.
pub open spec fn with_jump_id(host: HostRecord, hosts: Seq<HostRecord>) -> HostRecord {
    match host.jump_server_alias {
        Some(alias) => match id_of_name(hosts, alias) {
            Some(id) => HostRecord { jump_server_id: Some(id), ..host },
            None => host,
        },
        None => host,
    }
}

/// The hosts, each with its jump server looked up among them.
pub open spec fn with_jump_ids(hosts: Seq<HostRecord>) -> Seq<HostRecord> {
    Seq::new(hosts.len(), |i: int| with_jump_id(hosts[i], hosts))
}

/// A path with a leading `~` replaced by the home directory, where one is
/// known.
pub fn expand_home_path(path: &[char], home: Option<&str>) -> (expanded: String)
    ensures
        expanded@ == expand_home(path@, text_of_str(home)),
{
    match home {
        Some(dir) => {
            if path.len() > 0 && path[0] == '~' {
                let mut expanded = dir.to_string();
                push_chars(&mut expanded, slice_subrange(path, 1, path.len()));
                expanded
            } else {
                from_chars(path)
            }
        },
        None => from_chars(path),
    }
}

/// Whether a host's name is a pattern.
fn name_is_pattern(name: &str) -> (r: bool)
    ensures
        r == is_pattern(name@),
{
    let chars = to_chars(name);
    let mut i: usize = 0;
    while i < chars.len()
        invariant
            i <= chars@.len(),
            chars@ == name@,
            forall|j: int| 0 <= j < i ==> chars@[j] != '*' && chars@[j] != '?',
        decreases chars@.len() - i,
    {
        if chars[i] == '*' || chars[i] == '?' {
            return true;
        }
        i += 1;
    }
    false
}

/// The scan of a file as it runs.
struct Scanner {
    done: Vec<ParsedSshConnection>,
    current: Option<ParsedSshConnection>,
}

impl View for Scanner {
    type V = Scan;

    closed spec fn view(&self) -> Scan {
        Scan {
            done: records_of(self.done@),
            current: match self.current {
                Some(host) => Some(host@),
                None => None,
            },
        }
    }
}

fn close_current(scanner: Scanner) -> (done: Vec<ParsedSshConnection>)
    ensures
        records_of(done@) == closed(scanner@),
{
    let Scanner { done, current } = scanner;
    let mut done = done;
    match current {
        Some(host) => {
            if !name_is_pattern(host.name.as_str()) {
                done.push(host);
            }
        },
        None => {},
    }
    done
}

fn apply_directive(
    host: ParsedSshConnection,
    keyword: &[char],
    value: &[char],
    home: Option<&str>,
) -> (out: ParsedSshConnection)
    ensures
        out@ == with_directive(host@, ascii_lowered(keyword@), value@, text_of_str(home)),
{
    let mut host = host;
    if is_word_ignoring_case(keyword, to_chars("hostname").as_slice()) {
        host.host = from_chars(value);
    } else if is_word_ignoring_case(keyword, to_chars("user").as_slice()) {
        host.username = from_chars(value);
    } else if is_word_ignoring_case(keyword, to_chars("port").as_slice()) {
        match parse_number(value, 0xffff) {
            Some(port) => {
                host.port = port as u16;
            },
            None => {},
        }
    } else if is_word_ignoring_case(keyword, to_chars("identityfile").as_slice()) {
        let bare = strip_of(strip_of(value, CharSet::Only('"')), CharSet::Only('\''));
        host.private_key_path = Some(expand_home_path(bare, home));
    } else if is_word_ignoring_case(keyword, to_chars("proxyjump").as_slice()) {
        host.jump_server_alias = Some(from_chars(value));
    }
    host
}

fn apply_line(scanner: Scanner, raw: &[char], username: &str, home: Option<&str>) -> (out: Scanner)
    ensures
        out@ == after_line(scanner@, raw@, username@, text_of_str(home)),
{
    let line = trim(raw);
    if line.len() == 0 || line[0] == '#' {
        return scanner;
    }
    let cut = find_in_set(line, CharSet::WhitespaceOrEquals);
    let keyword = slice_subrange(line, 0, cut);
    let value = trim_start_of(slice_subrange(line, cut, line.len()), CharSet::WhitespaceOrEquals);
    if is_word_ignoring_case(keyword, to_chars("host").as_slice()) {
        let done = close_current(scanner);
        let host = ParsedSshConnection {
            id: String::new(),
            name: from_chars(value),
            host: String::new(),
            username: username.to_string(),
            port: 22,
            private_key_path: None,
            jump_server_alias: None,
            jump_server_id: None,
        };
        Scanner { done, current: Some(host) }
    } else {
        let Scanner { done, current } = scanner;
        match current {
            Some(host) => Scanner {
                done,
                current: Some(apply_directive(host, keyword, value, home)),
            },
            None => Scanner { done, current: None },
        }
    }
}

/// Reads the hosts out of the text of a configuration file. The hosts come in
/// the order in which the file begins them, without ids and with no jump
/// server looked up. `username` is the user of a host that names none, `home`
/// the directory that a leading `~` in a key's path stands for.
pub fn parse_hosts(content: &str, username: &str, home: Option<&str>) -> (hosts: Vec<
    ParsedSshConnection,
>)
    ensures
        records_of(hosts@) == hosts_in(content@, username@, text_of_str(home)),
{
    let chars = to_chars(content);
    let lines = split_on(chars.as_slice(), '\n');
    let ghost all = split(content@, '\n');
    let ghost step = |scan: Scan, raw: Seq<char>|
        after_line(scan, raw, username@, text_of_str(home));
    let ghost start = Scan { done: Seq::empty(), current: None };
    let mut scanner = Scanner { done: Vec::new(), current: None };
    assert(scanner@.done == Seq::<HostRecord>::empty());
    let mut i: usize = 0;
    while i < lines.len()
        invariant
            i <= lines@.len(),
            views(lines@) == all,
            step == |scan: Scan, raw: Seq<char>|
                after_line(scan, raw, username@, text_of_str(home)),
            start == (Scan { done: Seq::empty(), current: None }),
            scanner@ == all.take(i as int).fold_left(start, step),
        decreases lines@.len() - i,
    {
        assert(all.take(i + 1).drop_last() == all.take(i as int));
        scanner = apply_line(scanner, lines[i], username, home);
        i += 1;
    }
    close_current(scanner)
}

/// Gives each host the id made of `ssh_` and the identifier at its index. A host
/// for which no identifier is left keeps its id.
pub fn assign_ids(hosts: Vec<ParsedSshConnection>, uuids: &Vec<String>) -> (out: Vec<
    ParsedSshConnection,
>)
    ensures
        records_of(out@) == with_ids(records_of(hosts@), texts(uuids@)),
{
    let mut hosts = hosts;
    let ghost before = records_of(hosts@);
    let ghost ids = texts(uuids@);
    let mut i: usize = 0;
    while i < hosts.len() && i < uuids.len()
        invariant
            i <= hosts@.len(),
            i <= uuids@.len(),
            hosts@.len() == before.len(),
            ids == texts(uuids@),
            forall|j: int| 0 <= j < i ==> (#[trigger] hosts@[j])@ == with_ids(before, ids)[j],
            forall|j: int| i <= j < hosts@.len() ==> (#[trigger] hosts@[j])@ == before[j],
        decreases hosts@.len() - i,
    {
        let mut id = "ssh_".to_string();
        id.append(uuids[i].as_str());
        hosts[i].id = id;
        i += 1;
    }
    hosts
}

/// Whether `ids` answers for `name` as `id_of_name` does among `hosts`.
spec fn index_agrees(ids: Map<Seq<char>, String>, hosts: Seq<HostRecord>, name: Seq<char>) -> bool {
    match id_of_name(hosts, name) {
        Some(id) => ids.contains_key(name) && ids[name]@ == id,
        None => !ids.contains_key(name),
    }
}

/// Looks up each host's jump server among the hosts: a host that names one gets
/// the id of the last host of that name, if there is one.
pub fn resolve_jump_servers(hosts: Vec<ParsedSshConnection>) -> (out: Vec<ParsedSshConnection>)
    ensures
        records_of(out@) == with_jump_ids(records_of(hosts@)),
{
    let mut hosts = hosts;
    let ghost before = records_of(hosts@);
    let mut ids: StringHashMap<String> = StringHashMap::new();
    let mut k: usize = 0;
    while k < hosts.len()
        invariant
            k <= hosts@.len(),
            records_of(hosts@) == before,
            forall|name: Seq<char>| #[trigger] index_agrees(ids@, before.take(k as int), name),
        decreases hosts@.len() - k,
    {
        let ghost earlier = ids@;
        assert(before.take(k + 1).drop_last() == before.take(k as int));
        ids.insert(hosts[k].name.clone(), hosts[k].id.clone());
        assert forall|name: Seq<char>| #[trigger]
            index_agrees(ids@, before.take(k + 1), name) by {
            assert(index_agrees(earlier, before.take(k as int), name));
        }
        k += 1;
    }
    assert(before.take(k as int) == before);
    let mut i: usize = 0;
    while i < hosts.len()
        invariant
            i <= hosts@.len(),
            hosts@.len() == before.len(),
            forall|name: Seq<char>| #[trigger] index_agrees(ids@, before, name),
            forall|j: int|
                0 <= j < i ==> (#[trigger] hosts@[j])@ == with_jump_id(before[j], before),
            forall|j: int| i <= j < hosts@.len() ==> (#[trigger] hosts@[j])@ == before[j],
        decreases hosts@.len() - i,
    {
        let found = match &hosts[i].jump_server_alias {
            Some(alias) => {
                assert(index_agrees(ids@, before, alias@));
                match ids.get(alias.as_str()) {
                    Some(id) => Some(id.clone()),
                    None => None,
                }
            },
            None => None,
        };
        match found {
            Some(id) => {
                hosts[i].jump_server_id = Some(id);
            },
            None => {},
        }
        i += 1;
    }
    hosts
}

/// Whether `hosts` can be what `parse_config` makes of `content`: the hosts
/// that the file describes, for some user name and home directory, with ids
/// made of `ssh_` and an identifier each, and with the jump servers looked up.
pub open spec fn is_parse_of(hosts: Seq<HostRecord>, content: Seq<char>) -> bool {
    exists|username: Seq<char>, home: Option<Seq<char>>, uuids: Seq<Seq<char>>|
        {
            &&& uuids.len() == hosts_in(content, username, home).len()
            &&& forall|i: int| 0 <= i < uuids.len() ==> is_uuid_text(#[trigger] uuids[i])
            &&& hosts == with_jump_ids(
                #[trigger] with_ids(hosts_in(content, username, home), uuids),
            )
        }
}

/// Whether no host of a scan has a jump server looked up yet, and no complete
/// one is a pattern.
spec fn scan_is_plain(scan: Scan) -> bool {
    &&& forall|i: int|
        0 <= i < scan.done.len() ==> !is_pattern((#[trigger] scan.done[i]).name)
            && scan.done[i].jump_server_id is None
    &&& scan.current matches Some(host) ==> host.jump_server_id is None
}

proof fn lemma_scan_stays_plain(lines: Seq<Seq<char>>, username: Seq<char>, home: Option<Seq<char>>)
    ensures
        scan_is_plain(
            lines.fold_left(
                Scan { done: Seq::empty(), current: None },
                |scan: Scan, raw: Seq<char>| after_line(scan, raw, username, home),
            ),
        ),
    decreases lines.len(),
{
    if lines.len() > 0 {
        lemma_scan_stays_plain(lines.drop_last(), username, home);
    }
}

proof fn lemma_id_of_name_is_of_a_host(hosts: Seq<HostRecord>, name: Seq<char>)
    ensures
        id_of_name(hosts, name) matches Some(id) ==> exists|j: int|
            0 <= j < hosts.len() && (#[trigger] hosts[j]).name == name && hosts[j].id == id,
    decreases hosts.len(),
{
    if hosts.len() > 0 && hosts.last().name != name {
        lemma_id_of_name_is_of_a_host(hosts.drop_last(), name);
        if id_of_name(hosts, name) is Some {
            let j = choose|j: int|
                0 <= j < hosts.drop_last().len() && (#[trigger] hosts.drop_last()[j]).name == name
                    && hosts.drop_last()[j].id == id_of_name(hosts, name)->0;
            assert(hosts[j].name == name);
        }
    } else if hosts.len() > 0 {
        assert(hosts[hosts.len() - 1].name == name);
    }
}

/// Every host that `parse_config` returns can be connected to as it stands:
/// its name is no pattern, its id is `ssh_` and an identifier, and its jump
/// server, where one is looked up, is a host of the same list that bears the
/// name it asked for.
pub proof fn lemma_parsed_hosts_are_usable(hosts: Seq<HostRecord>, content: Seq<char>)
    requires
        is_parse_of(hosts, content),
    ensures
        forall|i: int|
            0 <= i < hosts.len() ==> {
                &&& !is_pattern((#[trigger] hosts[i]).name)
                &&& hosts[i].id.len() == 40
                &&& hosts[i].id.take(4) == "ssh_"@
                &&& is_uuid_text(hosts[i].id.skip(4))
                &&& hosts[i].jump_server_id matches Some(id) ==> {
                    &&& hosts[i].jump_server_alias matches Some(alias)
                    &&& exists|j: int|
                        0 <= j < hosts.len() && (#[trigger] hosts[j]).name == alias && hosts[j].id
                            == id
                }
            },
{
    let (username, home, uuids) = choose|
        username: Seq<char>,
        home: Option<Seq<char>>,
        uuids: Seq<Seq<char>>,
    |
        {
            &&& uuids.len() == hosts_in(content, username, home).len()
            &&& forall|i: int| 0 <= i < uuids.len() ==> is_uuid_text(#[trigger] uuids[i])
            &&& hosts == with_jump_ids(
                #[trigger] with_ids(hosts_in(content, username, home), uuids),
            )
        };
    let found = hosts_in(content, username, home);
    let named = with_ids(found, uuids);
    lemma_scan_stays_plain(split(content, '\n'), username, home);
    reveal_strlit("ssh_");
    assert forall|i: int| 0 <= i < hosts.len() implies {
        &&& !is_pattern((#[trigger] hosts[i]).name)
        &&& hosts[i].id.len() == 40
        &&& hosts[i].id.take(4) == "ssh_"@
        &&& is_uuid_text(hosts[i].id.skip(4))
        &&& hosts[i].jump_server_id matches Some(id) ==> {
            &&& hosts[i].jump_server_alias matches Some(alias)
            &&& exists|j: int|
                0 <= j < hosts.len() && (#[trigger] hosts[j]).name == alias && hosts[j].id == id
        }
    } by {
        assert(found[i].jump_server_id is None);
        assert(!is_pattern(found[i].name));
        assert(is_uuid_text(uuids[i]));
        assert(named[i].id == "ssh_"@ + uuids[i]);
        assert(hosts[i] == with_jump_id(named[i], named));
        assert(hosts[i].id.take(4) =~= "ssh_"@);
        assert(hosts[i].id.skip(4) =~= uuids[i]);
        if hosts[i].jump_server_id is Some {
            let alias = named[i].jump_server_alias->0;
            lemma_id_of_name_is_of_a_host(named, alias);
            let j = choose|j: int|
                0 <= j < named.len() && (#[trigger] named[j]).name == alias && named[j].id
                    == id_of_name(named, alias)->0;
            assert(hosts[j] == with_jump_id(named[j], named));
            assert(hosts[j].name == alias && hosts[j].id == hosts[i].jump_server_id->0);
        }
    }
}

/// Whether two hosts are the same but for the id and the id of the jump
/// server.
pub open spec fn same_but_ids(a: HostRecord, b: HostRecord) -> bool {
    &&& a.name == b.name
    &&& a.host == b.host
    &&& a.username == b.username
    &&& a.port == b.port
    &&& a.private_key_path == b.private_key_path
    &&& a.jump_server_alias == b.jump_server_alias
}

/// The hosts that `parse_config` returns are those that the file describes, in
/// the order in which the file begins them: the ids and the jump servers that
/// are looked up come on top, and nothing else of a host is touched.
pub proof fn lemma_parsed_hosts_are_as_read(hosts: Seq<HostRecord>, content: Seq<char>)
    requires
        is_parse_of(hosts, content),
    ensures
        exists|username: Seq<char>, home: Option<Seq<char>>|
            {
                &&& hosts.len() == (#[trigger] hosts_in(content, username, home)).len()
                &&& forall|i: int|
                    0 <= i < hosts.len() ==> same_but_ids(
                        #[trigger] hosts[i],
                        hosts_in(content, username, home)[i],
                    )
            },
{
    let (username, home, uuids) = choose|
        username: Seq<char>,
        home: Option<Seq<char>>,
        uuids: Seq<Seq<char>>,
    |
        {
            &&& uuids.len() == hosts_in(content, username, home).len()
            &&& forall|i: int| 0 <= i < uuids.len() ==> is_uuid_text(#[trigger] uuids[i])
            &&& hosts == with_jump_ids(
                #[trigger] with_ids(hosts_in(content, username, home), uuids),
            )
        };
    let found = hosts_in(content, username, home);
    let named = with_ids(found, uuids);
    assert forall|i: int| 0 <= i < hosts.len() implies same_but_ids(
        #[trigger] hosts[i],
        found[i],
    ) by {
        assert(hosts[i] == with_jump_id(named[i], named));
    }
}

/// Whether a port is one that the lines of a file give a host: 22, or the
/// number that the value of one of the lines reads as.
pub open spec fn port_is_read(port: u16, lines: Seq<Seq<char>>) -> bool {
    port == 22 || exists|k: int|
        0 <= k < lines.len() && parse_unsigned(value_of(trimmed(#[trigger] lines[k])), 0xffff)
            == Some(port as nat)
}

/// Whether every host of a scan has a port that the lines give.
spec fn scan_ports_are_read(scan: Scan, lines: Seq<Seq<char>>) -> bool {
    &&& forall|i: int|
        0 <= i < scan.done.len() ==> port_is_read((#[trigger] scan.done[i]).port, lines)
    &&& scan.current matches Some(host) ==> port_is_read(host.port, lines)
}

proof fn lemma_port_stays_read(port: u16, lines: Seq<Seq<char>>)
    requires
        lines.len() > 0,
        port_is_read(port, lines.drop_last()),
    ensures
        port_is_read(port, lines),
{
    if port != 22 {
        let rest = lines.drop_last();
        let k = choose|k: int|
            0 <= k < rest.len() && parse_unsigned(value_of(trimmed(#[trigger] rest[k])), 0xffff)
                == Some(port as nat);
        assert(lines[k] == rest[k]);
    }
}

proof fn lemma_scan_ports_are_read(
    lines: Seq<Seq<char>>,
    username: Seq<char>,
    home: Option<Seq<char>>,
)
    ensures
        scan_ports_are_read(
            lines.fold_left(
                Scan { done: Seq::empty(), current: None },
                |scan: Scan, raw: Seq<char>| after_line(scan, raw, username, home),
            ),
            lines,
        ),
    decreases lines.len(),
{
    if lines.len() > 0 {
        let rest = lines.drop_last();
        let step = |scan: Scan, raw: Seq<char>| after_line(scan, raw, username, home);
        let start = Scan { done: Seq::empty(), current: None };
        let before = rest.fold_left(start, step);
        let after = after_line(before, lines.last(), username, home);
        lemma_scan_ports_are_read(rest, username, home);
        assert(lines.fold_left(start, step) == after);
        assert forall|i: int| 0 <= i < before.done.len() implies port_is_read(
            (#[trigger] before.done[i]).port,
            lines,
        ) by {
            lemma_port_stays_read(before.done[i].port, lines);
        }
        if before.current is Some {
            lemma_port_stays_read(before.current->0.port, lines);
        }
        assert forall|i: int| 0 <= i < after.done.len() implies port_is_read(
            (#[trigger] after.done[i]).port,
            lines,
        ) by {
            if i < before.done.len() {
                assert(after.done[i] == before.done[i]);
            }
        }
        if after.current is Some {
            let port = after.current->0.port;
            if !(before.current is Some && before.current->0.port == port) && port != 22 {
                assert(parse_unsigned(value_of(trimmed(lines[lines.len() - 1])), 0xffff) == Some(
                    port as nat,
                ));
            }
        }
    }
}

/// Every host that `parse_config` returns has the port 22 or a port that a
/// line of the file names.
pub proof fn lemma_parsed_ports_are_read(hosts: Seq<HostRecord>, content: Seq<char>)
    requires
        is_parse_of(hosts, content),
    ensures
        forall|i: int|
            0 <= i < hosts.len() ==> port_is_read((#[trigger] hosts[i]).port, split(content, '\n')),
{
    let (username, home, uuids) = choose|
        username: Seq<char>,
        home: Option<Seq<char>>,
        uuids: Seq<Seq<char>>,
    |
        {
            &&& uuids.len() == hosts_in(content, username, home).len()
            &&& forall|i: int| 0 <= i < uuids.len() ==> is_uuid_text(#[trigger] uuids[i])
            &&& hosts == with_jump_ids(
                #[trigger] with_ids(hosts_in(content, username, home), uuids),
            )
        };
    let found = hosts_in(content, username, home);
    let named = with_ids(found, uuids);
    let lines = split(content, '\n');
    lemma_scan_ports_are_read(lines, username, home);
    assert forall|i: int| 0 <= i < hosts.len() implies port_is_read(
        (#[trigger] hosts[i]).port,
        lines,
    ) by {
        assert(hosts[i] == with_jump_id(named[i], named));
        assert(hosts[i].port == found[i].port);
    }
}

/// Reads the hosts out of the text of a configuration file, for the user who
/// runs the process and their home directory. Each host gets a fresh random id
/// that begins `ssh_`, and each host that names a jump server gets the id of
/// the last host of that name, if there is one.
pub fn parse_config(content: &str) -> (hosts: Vec<ParsedSshConnection>)
    ensures
        is_parse_of(records_of(hosts@), content@),
{
    let username = current_username();
    let home = home_directory();
    let hosts = match &home {
        Some(dir) => parse_hosts(content, username.as_str(), Some(dir.as_str())),
        None => parse_hosts(content, username.as_str(), None),
    };
    let mut uuids: Vec<String> = Vec::new();
    while uuids.len() < hosts.len()
        invariant
            uuids@.len() <= hosts@.len(),
            forall|i: int| 0 <= i < uuids@.len() ==> is_uuid_text(#[trigger] uuids@[i]@),
        decreases hosts@.len() - uuids@.len(),
    {
        uuids.push(random_uuid());
    }
    let ghost found = records_of(hosts@);
    let ghost ids = texts(uuids@);
    let hosts = assign_ids(hosts, &uuids);
    let hosts = resolve_jump_servers(hosts);
    proof {
        assert(found == hosts_in(content@, username@, text_of(home)));
        assert(records_of(hosts@) == with_jump_ids(with_ids(found, ids)));
    }
    hosts
}

} // verus!
