//! What to tell the user when a local port is taken: which process holds it, as
//! far as the system's tools say, and which port nearby is free.
//!
//! The tools are run and the ports are probed by functions that the caller
//! hands in. What they return is taken as it comes; a tool that cannot be run
//! or that fails yields no answer, never an error.

use crate::text::{
    contains, decimal, has_substring, parse_number, parse_unsigned, push_chars, push_decimal, split,
    split_on, split_words, strip, strip_of, text_of, text_of_chars, text_of_str, texts, to_chars,
    trim, trimmed, views, words, CharSet,
};
use crate::tunnel::{host_port, host_port_address, TunnelError};
use vstd::prelude::*;
use vstd::string::*;

verus! {

/// How many ports above a taken one are tried for a free one.
pub const PORT_SEARCH_ATTEMPTS: u8 = 10;

/// The family of operating system, as far as the tools differ.
#[derive(Clone, Copy, Debug, PartialEq, Eq, Structural)]
pub enum Platform {
    /// Linux and macOS: `lsof` and `ps`.
    Unix,
    /// Windows: `netstat` and `tasklist`.
    Windows,
    /// Anything else: no tools are known.
    Other,
}

/// A program to run, with its arguments.
#[derive(Debug)]
pub struct CommandLine {
    pub program: String,
    pub args: Vec<String>,
}

/// How a program ended, and what it wrote to its standard output.
#[derive(Debug)]
pub struct CommandOutput {
    pub success: bool,
    pub stdout: String,
}

impl CommandLine {
    /// Whether this is the call of `program` with `args`.
    pub open spec fn is(&self, program: Seq<char>, args: Seq<Seq<char>>) -> bool {
        self.program@ == program && texts(self.args@) == args
    }
}

/// The arguments by which `lsof` lists the ids of the processes that listen on
/// a TCP port.
pub open spec fn lsof_arguments(port: u16) -> Seq<Seq<char>> {
    seq!["-i"@, ":"@ + decimal(port as nat), "-t"@, "-sTCP:LISTEN"@]
}

/// The arguments by which `ps` prints the name of a process.
pub open spec fn ps_arguments(pid: u32) -> Seq<Seq<char>> {
    seq!["-p"@, decimal(pid as nat), "-o"@, "comm="@]
}

/// The arguments by which `netstat` lists all sockets with their processes.
pub open spec fn netstat_arguments() -> Seq<Seq<char>> {
    seq!["-ano"@]
}

/// The arguments by which `tasklist` prints a process as one line of
/// comma-separated values.
pub open spec fn tasklist_arguments(pid: u32) -> Seq<Seq<char>> {
    seq!["/FI"@, "PID eq "@ + decimal(pid as nat), "/FO"@, "CSV"@, "/NH"@]
}

/// How the holder of a port is described: by name and id, or by id alone.
pub open spec fn process_text(pid: u32, name: Option<Seq<char>>) -> Seq<char> {
    match name {
        Some(n) => "by '"@ + n + "' (PID: "@ + decimal(pid as nat) + ")"@,
        None => "by PID "@ + decimal(pid as nat),
    }
}

/// The message for a local port that is taken.
pub open spec fn port_in_use_text(
    local_port: u16,
    process: Option<Seq<char>>,
    free_port: Option<u16>,
) -> Seq<char> {
    let held = match process {
        Some(p) => " "@ + p,
        None => Seq::<char>::empty(),
    };
    let advice = match free_port {
        Some(p) => " Port "@ + decimal(p as nat) + " is available."@,
        None => " Please choose a different port."@,
    };
    "Port "@ + decimal(local_port as nat) + " is already in use"@ + held + "."@ + advice
}

/// The process id in what `lsof` printed: the whole output, trimmed, if it is
/// one number.
pub open spec fn listed_pid(stdout: Seq<char>) -> Option<u32> {
    match parse_unsigned(trimmed(stdout), 0xffff_ffff) {
        Some(pid) => Some(pid as u32),
        None => None,
    }
}

/// The name in what `ps` printed: the output, trimmed, unless nothing is left.
pub open spec fn printed_name(stdout: Seq<char>) -> Option<Seq<char>> {
    if trimmed(stdout).len() > 0 {
        Some(trimmed(stdout))
    } else {
        None
    }
}

/// The process id in one line of `netstat`: the last word, if the line speaks
/// of the port, says `LISTENING`, and ends in a number.
pub open spec fn netstat_line_pid(line: Seq<char>, port: u16) -> Option<u32> {
    if has_substring(line, ":"@ + decimal(port as nat)) && has_substring(line, "LISTENING"@)
        && words(line).len() > 0 {
        match parse_unsigned(words(line).last(), 0xffff_ffff) {
            Some(pid) => Some(pid as u32),
            None => None,
        }
    } else {
        None
    }
}

/// The process id of the first of `lines` that has one for the port.
pub open spec fn first_netstat_pid(lines: Seq<Seq<char>>, port: u16) -> Option<u32>
    decreases lines.len(),
{
    if lines.len() == 0 {
        None
    } else {
        match netstat_line_pid(lines[0], port) {
            Some(pid) => Some(pid),
            None => first_netstat_pid(lines.skip(1), port),
        }
    }
}

/// The process id that `netstat` reports for the port.
pub open spec fn netstat_pid(stdout: Seq<char>, port: u16) -> Option<u32> {
    first_netstat_pid(split(stdout, '\n'), port)
}

/// The name in what `tasklist` printed: the first of the comma-separated
/// fields, without the quotes and the white space around it, unless nothing is
/// left.
pub open spec fn tasklist_name(stdout: Seq<char>) -> Option<Seq<char>> {
    let name = trimmed(strip(split(stdout, ',')[0], CharSet::Only('"')));
    if name.len() > 0 {
        Some(name)
    } else {
        None
    }
}

/// The process id that the listing tool's run gives: none if the tool could not
/// be run or failed.
pub open spec fn pid_found(
    platform: Platform,
    port: u16,
    listing: Option<CommandOutput>,
) -> Option<u32> {
    match listing {
        Some(out) => if !out.success {
            None
        } else if platform == Platform::Unix {
            listed_pid(out.stdout@)
        } else {
            netstat_pid(out.stdout@, port)
        },
        None => None,
    }
}

/// The description that the naming tool's run gives for the process `pid`: none
/// if the tool could not be run, the id alone if it failed or printed no name.
pub open spec fn holder_found(
    platform: Platform,
    pid: u32,
    naming: Option<CommandOutput>,
) -> Option<Seq<char>> {
    match naming {
        Some(out) => if !out.success {
            Some(process_text(pid, None))
        } else if platform == Platform::Unix {
            Some(process_text(pid, printed_name(out.stdout@)))
        } else {
            Some(process_text(pid, tasklist_name(out.stdout@)))
        },
        None => None,
    }
}

/// The call of the tool that lists who listens on `port`.
pub open spec fn is_listing_command(platform: Platform, port: u16, command: CommandLine) -> bool {
    if platform == Platform::Unix {
        command.is("lsof"@, lsof_arguments(port))
    } else {
        command.is("netstat"@, netstat_arguments())
    }
}

/// The call of the tool that names the process `pid`.
pub open spec fn is_naming_command(platform: Platform, pid: u32, command: CommandLine) -> bool {
    if platform == Platform::Unix {
        command.is("ps"@, ps_arguments(pid))
    } else {
        command.is("tasklist"@, tasklist_arguments(pid))
    }
}

/// Whether `holder` is what the tools, run by `run`, say of who holds `port`.
/// The listing tool is run once. If its run gives a process id, the naming tool
/// is run once for that id, and its run gives the description.
pub open spec fn process_lookup<R: Fn(CommandLine) -> Option<CommandOutput>>(
    port: u16,
    platform: Platform,
    run: R,
    holder: Option<Seq<char>>,
) -> bool {
    if platform == Platform::Other {
        holder is None
    } else {
        exists|listing_command: CommandLine, listing: Option<CommandOutput>|
            {
                &&& is_listing_command(platform, port, listing_command)
                &&& #[trigger] run.ensures((listing_command,), listing)
                &&& match pid_found(platform, port, listing) {
                    Some(pid) => exists|naming_command: CommandLine, naming: Option<CommandOutput>|
                        {
                            &&& is_naming_command(platform, pid, naming_command)
                            &&& #[trigger] run.ensures((naming_command,), naming)
                            &&& holder == holder_found(platform, pid, naming)
                        },
                    None => holder is None,
                }
            }
    }
}

/// The port that is tried at `offset` above `start`: the sum, or the highest
/// port where the sum is beyond it; none where that is `start` itself.
pub open spec fn candidate_port(start: u16, offset: int) -> Option<u16> {
    if start + offset <= 0xffff {
        Some((start + offset) as u16)
    } else if start < 0xffff {
        Some(0xffffu16)
    } else {
        None
    }
}

/// The address at which a port is probed: the port on this machine's loopback
/// address.
pub open spec fn probe_address(port: u16) -> Seq<char> {
    host_port("127.0.0.1"@, port)
}

/// Whether a probe of `port` with `can_bind` found what `free` says: whether
/// `can_bind`, asked to bind the port's probe address, answered so.
pub open spec fn probed<B: Fn(String) -> bool>(can_bind: B, port: u16, free: bool) -> bool {
    exists|address: String|
        address@ == probe_address(port) && #[trigger] can_bind.ensures((address,), free)
}

/// Whether `free` is what probing with `can_bind` finds above `start`: the
/// first candidate among those at the offsets from 1 to `max_attempts` that a
/// probe found free, after a probe of each one before it found it taken; or
/// nothing, after a probe of every candidate found it taken.
pub open spec fn port_search<B: Fn(String) -> bool>(
    start: u16,
    max_attempts: u8,
    can_bind: B,
    free: Option<u16>,
) -> bool {
    match free {
        Some(port) => exists|k: int|
            {
                &&& 1 <= k <= max_attempts
                &&& #[trigger] candidate_port(start, k) == Some(port)
                &&& probed(can_bind, port, true)
                &&& all_taken(start, k - 1, can_bind)
            },
        None => all_taken(start, max_attempts as int, can_bind),
    }
}

/// Whether a probe found each candidate at the offsets from 1 to `upto` taken.
pub open spec fn all_taken<B: Fn(String) -> bool>(start: u16, upto: int, can_bind: B) -> bool {
    forall|j: int|
        1 <= j <= upto ==> (#[trigger] candidate_port(start, j) matches Some(port) ==> probed(
            can_bind,
            port,
            false,
        ))
}

fn listing_command(platform: Platform, port: u16) -> (command: CommandLine)
    requires
        platform != Platform::Other,
    ensures
        is_listing_command(platform, port, command),
{
    let mut args: Vec<String> = Vec::new();
    let program = match platform {
        Platform::Unix => {
            let mut target = ":".to_string();
            push_decimal(&mut target, port as u64);
            args.push("-i".to_string());
            args.push(target);
            args.push("-t".to_string());
            args.push("-sTCP:LISTEN".to_string());
            assert(texts(args@) =~= lsof_arguments(port));
            "lsof".to_string()
        },
        _ => {
            args.push("-ano".to_string());
            assert(texts(args@) =~= netstat_arguments());
            "netstat".to_string()
        },
    };
    CommandLine { program, args }
}

fn naming_command(platform: Platform, pid: u32) -> (command: CommandLine)
    requires
        platform != Platform::Other,
    ensures
        is_naming_command(platform, pid, command),
{
    let mut args: Vec<String> = Vec::new();
    let program = match platform {
        Platform::Unix => {
            let mut id = String::new();
            push_decimal(&mut id, pid as u64);
            args.push("-p".to_string());
            args.push(id);
            args.push("-o".to_string());
            args.push("comm=".to_string());
            assert(texts(args@) =~= ps_arguments(pid));
            "ps".to_string()
        },
        _ => {
            let mut filter = "PID eq ".to_string();
            push_decimal(&mut filter, pid as u64);
            args.push("/FI".to_string());
            args.push(filter);
            args.push("/FO".to_string());
            args.push("CSV".to_string());
            args.push("/NH".to_string());
            assert(texts(args@) =~= tasklist_arguments(pid));
            "tasklist".to_string()
        },
    };
    CommandLine { program, args }
}

/// The process id in what `lsof` printed.
pub fn pid_from_lsof(stdout: &str) -> (pid: Option<u32>)
    ensures
        pid == listed_pid(stdout@),
{
    let chars = to_chars(stdout);
    parse_number(trim(chars.as_slice()), 0xffff_ffff)
}

/// The name in what `ps` printed.
pub fn name_from_ps(stdout: &str) -> (name: Option<Vec<char>>)
    ensures
        text_of_chars(name) == printed_name(stdout@),
{
    let chars = to_chars(stdout);
    let name = trim(chars.as_slice());
    if name.len() > 0 {
        Some(vstd::slice::slice_to_vec(name))
    } else {
        None
    }
}

/// The process id that `netstat` reports for the port.
pub fn pid_from_netstat(stdout: &str, port: u16) -> (pid: Option<u32>)
    ensures
        pid == netstat_pid(stdout@, port),
{
    let chars = to_chars(stdout);
    let mut target = ":".to_string();
    push_decimal(&mut target, port as u64);
    let target = to_chars(target.as_str());
    let listening = to_chars("LISTENING");
    let lines = split_on(chars.as_slice(), '\n');
    let ghost all = split(stdout@, '\n');
    assert(all.skip(0) == all);
    let mut i: usize = 0;
    while i < lines.len()
        invariant
            i <= lines@.len(),
            views(lines@) == all,
            all == split(stdout@, '\n'),
            target@ == ":"@ + decimal(port as nat),
            listening@ == "LISTENING"@,
            first_netstat_pid(all, port) == first_netstat_pid(all.skip(i as int), port),
        decreases lines@.len() - i,
    {
        let line = lines[i];
        assert(all.skip(i as int).skip(1) == all.skip(i + 1));
        if contains(line, target.as_slice()) && contains(
            line,
            listening.as_slice(),
        ) {
            let line_words = split_words(line);
            if line_words.len() > 0 {
                match parse_number(line_words[line_words.len() - 1], 0xffff_ffff) {
                    Some(pid) => {
                        return Some(pid);
                    },
                    None => {},
                }
            }
        }
        i += 1;
    }
    None
}

/// The name in what `tasklist` printed.
pub fn name_from_tasklist(stdout: &str) -> (name: Option<Vec<char>>)
    ensures
        text_of_chars(name) == tasklist_name(stdout@),
{
    let chars = to_chars(stdout);
    let fields = split_on(chars.as_slice(), ',');
    let name = trim(strip_of(fields[0], CharSet::Only('"')));
    if name.len() > 0 {
        Some(vstd::slice::slice_to_vec(name))
    } else {
        None
    }
}

/// How the holder of a port is described: by name and id, or by id alone.
pub fn describe_process(pid: u32, name: Option<Vec<char>>) -> (text: String)
    ensures
        text@ == process_text(pid, text_of_chars(name)),
{
    match name {
        Some(n) => {
            let mut text = "by '".to_string();
            push_chars(&mut text, n.as_slice());
            text.append("' (PID: ");
            push_decimal(&mut text, pid as u64);
            text.append(")");
            text
        },
        None => {
            let mut text = "by PID ".to_string();
            push_decimal(&mut text, pid as u64);
            text
        },
    }
}

/// Finds out which process listens on `port`, by the tools of the platform,
/// which `run` runs: `run` returns nothing for a tool that could not be
/// started. The answer reads `by 'name' (PID: n)`, or `by PID n` where the name
/// could not be had.
pub fn find_process_using_port<R: Fn(CommandLine) -> Option<CommandOutput>>(
    port: u16,
    platform: Platform,
    run: R,
) -> (holder: Option<String>)
    requires
        forall|command: CommandLine| run.requires((command,)),
    ensures
        process_lookup(port, platform, run, text_of(holder)),
{
    if platform == Platform::Other {
        return None;
    }
    let listing = run(listing_command(platform, port));
    let found = match &listing {
        Some(out) => if !out.success {
            None
        } else if platform == Platform::Unix {
            pid_from_lsof(out.stdout.as_str())
        } else {
            pid_from_netstat(out.stdout.as_str(), port)
        },
        None => None,
    };
    let pid = match found {
        Some(pid) => pid,
        None => {
            return None;
        },
    };
    let naming = run(naming_command(platform, pid));
    match &naming {
        Some(out) => {
            let name = if !out.success {
                None
            } else if platform == Platform::Unix {
                name_from_ps(out.stdout.as_str())
            } else {
                name_from_tasklist(out.stdout.as_str())
            };
            Some(describe_process(pid, name))
        },
        None => None,
    }
}

/// Looks for a free port above `start_port`: probes the candidates at the
/// offsets from 1 to `max_attempts` in order and returns the first that it
/// finds free. A port is probed by asking `can_bind` whether a listener can be
/// bound to it on the loopback address; `can_bind` lets the listener go at once.
pub fn find_next_available_port<B: Fn(String) -> bool>(
    start_port: u16,
    max_attempts: u8,
    can_bind: B,
) -> (free: Option<u16>)
    requires
        forall|address: String| can_bind.requires((address,)),
    ensures
        port_search(start_port, max_attempts, can_bind, free),
{
    let mut offset: u8 = 0;
    while offset < max_attempts
        invariant
            offset <= max_attempts,
            forall|address: String| can_bind.requires((address,)),
            all_taken(start_port, offset as int, can_bind),
        decreases max_attempts - offset,
    {
        offset += 1;
        let sum: u32 = start_port as u32 + offset as u32;
        let candidate: u16 = if sum > 0xffff {
            0xffff
        } else {
            sum as u16
        };
        if candidate != start_port {
            assert(candidate_port(start_port, offset as int) == Some(candidate));
            let address = host_port_address("127.0.0.1", candidate);
            let free = can_bind(address);
            assert(probed(can_bind, candidate, free));
            if free {
                return Some(candidate);
            }
        }
    }
    None
}

/// The message for a local port that is taken.
pub fn port_in_use_message(local_port: u16, process: Option<&str>, free_port: Option<u16>) -> (m:
    String)
    ensures
        m@ == port_in_use_text(local_port, text_of_str(process), free_port),
{
    let mut m = "Port ".to_string();
    push_decimal(&mut m, local_port as u64);
    m.append(" is already in use");
    match process {
        Some(p) => {
            m.append(" ");
            m.append(p);
        },
        None => {},
    }
    m.append(".");
    match free_port {
        Some(p) => {
            m.append(" Port ");
            push_decimal(&mut m, p as u64);
            m.append(" is available.");
        },
        None => {
            m.append(" Please choose a different port.");
        },
    }
    m
}

/// Why the listener of a local forwarding could not be bound.
#[derive(Debug)]
pub enum BindFailure {
    /// The address is in use.
    AddressInUse,
    /// Anything else, in the system's words.
    Other { reason: String },
}

/// Whether `error` is the error for a listener on `local_port` that could not
/// be bound: for an address in use, the one that names the port, its holder
/// and a free port nearby, as far as they are found; for anything else, the
/// system's words.
pub open spec fn bind_error_is<R: Fn(CommandLine) -> Option<CommandOutput>, B: Fn(String) -> bool>(
    local_port: u16,
    failure: BindFailure,
    platform: Platform,
    run: R,
    can_bind: B,
    error: TunnelError,
) -> bool {
    match failure {
        BindFailure::AddressInUse => error matches TunnelError::PortInUse { message } && exists|
            holder: Option<Seq<char>>,
            free: Option<u16>,
        |
            {
                &&& process_lookup(local_port, platform, run, holder)
                &&& port_search(local_port, PORT_SEARCH_ATTEMPTS, can_bind, free)
                &&& #[trigger] port_in_use_text(local_port, holder, free) == message@
            },
        BindFailure::Other { reason } => error matches TunnelError::BindFailed { message }
            && message@ == reason@,
    }
}

/// The error for a local port that is taken, after a look for the process that
/// holds it and for a free port among the next few.
pub fn port_in_use<R: Fn(CommandLine) -> Option<CommandOutput>, B: Fn(String) -> bool>(
    local_port: u16,
    platform: Platform,
    run: R,
    can_bind: B,
) -> (error: TunnelError)
    requires
        forall|command: CommandLine| run.requires((command,)),
        forall|address: String| can_bind.requires((address,)),
    ensures
        bind_error_is(local_port, BindFailure::AddressInUse, platform, run, can_bind, error),
{
    let holder = find_process_using_port(local_port, platform, run);
    let free = find_next_available_port(local_port, PORT_SEARCH_ATTEMPTS, can_bind);
    let message = match &holder {
        Some(h) => port_in_use_message(local_port, Some(h.as_str()), free),
        None => port_in_use_message(local_port, None, free),
    };
    TunnelError::PortInUse { message }
}

/// The error for a listener on `local_port` that could not be bound. Only for
/// an address in use are the tools run and the ports probed.
pub fn local_bind_error<R: Fn(CommandLine) -> Option<CommandOutput>, B: Fn(String) -> bool>(
    local_port: u16,
    failure: BindFailure,
    platform: Platform,
    run: R,
    can_bind: B,
) -> (error: TunnelError)
    requires
        forall|command: CommandLine| run.requires((command,)),
        forall|address: String| can_bind.requires((address,)),
    ensures
        bind_error_is(local_port, failure, platform, run, can_bind, error),
{
    match failure {
        BindFailure::AddressInUse => port_in_use(local_port, platform, run, can_bind),
        BindFailure::Other { reason } => TunnelError::BindFailed { message: reason },
    }
}

} // verus!
