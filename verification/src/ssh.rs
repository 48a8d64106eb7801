//! Building an authenticated session, hop by hop.
//!
//! A connection may name a jump host, which may name one of its own. The route
//! to the target is the list of these hosts, the outermost first. The session
//! to the first host runs over a TCP connection. The session to each later host
//! runs over a channel that the session before it opens, and it keeps that
//! session alive for as long as it lasts itself.
//!
//! The builder is told what happened on the network and answers with what is
//! to be done next. It never waits and never fails by panicking.

use crate::ssh_config::{expand_home, expand_home_path, home_directory};
use crate::text::{text_of, text_of_str, to_chars};
use crate::tunnel::{DirectTcpip, InboundRoute, TunnelManager};
use crate::types::{AuthMethod, ConnectionConfig};
use russh_keys::key::KeyPair;
use std::sync::Arc;
use vstd::prelude::*;
use vstd::string::*;

verus! {

/// The private key of the `russh_keys` crate.
#[verifier::external_type_specification]
#[verifier::external_body]
pub struct ExKeyPair(russh_keys::key::KeyPair);

/// Why `russh_keys::decode_secret_key` refuses a key file's text, given the
/// passphrase: what its error says when it is displayed. Nothing where it
/// accepts the text and gives a key.
pub uninterp spec fn key_refusal(text: Seq<char>, passphrase: Option<Seq<char>>) -> Option<
    Seq<char>,
>;

/// `russh_keys::decode_secret_key`: the private key that a key file's text
/// holds, deciphered with the passphrase where the text is enciphered, or the
/// words of the error with which the text is refused. Whether the text is
/// refused, and in which words, depends on the text and the passphrase alone.
/// Nothing is claimed of the key.
#[verifier::external_body]
fn decode_secret_key(text: &str, passphrase: Option<&str>) -> (decoded: Result<KeyPair, String>)
    ensures
        refusal_of(decoded) == key_refusal(text@, text_of_str(passphrase)),
{
    russh_keys::decode_secret_key(text, passphrase).map_err(|error| error.to_string())
}

/// Why a session could not be built.
#[derive(Debug)]
pub enum SessionError {
    /// The key file could not be read.
    KeyFile { message: String },
    /// The key file does not hold a key that could be decoded: a wrong
    /// passphrase, or a format that is not supported.
    KeyDecode { message: String },
    /// The server did not accept the credentials.
    Auth,
    /// The connection could not be made, or was lost.
    Transport { message: String },
    /// The two sides could not agree on a session.
    Handshake { message: String },
    /// The session to a jump host could not be built, for the reason inside.
    JumpHost { inner: Box<SessionError> },
}

/// Why a session could not be built, as text.
pub ghost enum Failure {
    KeyFile { message: Seq<char> },
    KeyDecode { message: Seq<char> },
    Auth,
    Transport { message: Seq<char> },
    Handshake { message: Seq<char> },
    JumpHost { inner: Box<Failure> },
}

/// Why a session could not be built, as text.
pub open spec fn failure_of(error: SessionError) -> Failure
    decreases error,
{
    match error {
        SessionError::KeyFile { message } => Failure::KeyFile { message: message@ },
        SessionError::KeyDecode { message } => Failure::KeyDecode { message: message@ },
        SessionError::Auth => Failure::Auth,
        SessionError::Transport { message } => Failure::Transport { message: message@ },
        SessionError::Handshake { message } => Failure::Handshake { message: message@ },
        SessionError::JumpHost { inner } => Failure::JumpHost {
            inner: Box::new(failure_of(*inner)),
        },
    }
}

impl View for SessionError {
    type V = Failure;

    open spec fn view(&self) -> Failure {
        failure_of(*self)
    }
}

/// A failure on a jump host, as it reaches the caller through `levels` hosts
/// that were to be reached through it.
pub open spec fn through_jumps(failure: Failure, levels: nat) -> Failure
    decreases levels,
{
    if levels == 0 {
        failure
    } else {
        Failure::JumpHost { inner: Box::new(through_jumps(failure, (levels - 1) as nat)) }
    }
}

/// The text of a failure.
pub open spec fn failure_text(failure: Failure) -> Seq<char>
    decreases failure,
{
    match failure {
        Failure::KeyFile { message } => "Failed to read private key file: "@ + message,
        Failure::KeyDecode { message } => "Failed to decode private key: "@ + message,
        Failure::Auth => "Authentication failed"@,
        Failure::Transport { message } => message,
        Failure::Handshake { message } => message,
        Failure::JumpHost { inner } => "Failed to connect to jump host: "@ + failure_text(*inner),
    }
}

impl SessionError {
    /// The text of the error.
    pub fn message(&self) -> (text: String)
        ensures
            text@ == failure_text(self@),
        decreases self,
    {
        match self {
            SessionError::KeyFile { message } => {
                let mut text = "Failed to read private key file: ".to_string();
                text.append(message.as_str());
                text
            },
            SessionError::KeyDecode { message } => {
                let mut text = "Failed to decode private key: ".to_string();
                text.append(message.as_str());
                text
            },
            SessionError::Auth => "Authentication failed".to_string(),
            SessionError::Transport { message } => message.clone(),
            SessionError::Handshake { message } => message.clone(),
            SessionError::JumpHost { inner } => {
                let mut text = "Failed to connect to jump host: ".to_string();
                text.append(inner.message().as_str());
                text
            },
        }
    }
}

/// One host on the route, and how to log in to it.
#[derive(Debug)]
pub struct Hop {
    pub host: String,
    pub port: u16,
    pub username: String,
    pub auth_method: AuthMethod,
}

/// How to log in, as text.
pub ghost enum Credentials {
    Password { password: Seq<char> },
    PrivateKey { key_path: Seq<char>, passphrase: Option<Seq<char>> },
}

/// One host on the route, as text and numbers.
pub ghost struct HopRecord {
    pub host: Seq<char>,
    pub port: u16,
    pub username: Seq<char>,
    pub credentials: Credentials,
}

impl View for AuthMethod {
    type V = Credentials;

    open spec fn view(&self) -> Credentials {
        match self {
            AuthMethod::Password { password } => Credentials::Password { password: password@ },
            AuthMethod::PrivateKey { key_path, passphrase } => Credentials::PrivateKey {
                key_path: key_path@,
                passphrase: text_of(*passphrase),
            },
        }
    }
}

impl View for Hop {
    type V = HopRecord;

    open spec fn view(&self) -> HopRecord {
        HopRecord {
            host: self.host@,
            port: self.port,
            username: self.username@,
            credentials: self.auth_method@,
        }
    }
}

/// The hosts of a list, as text and numbers.
pub open spec fn hop_records(hops: Seq<Hop>) -> Seq<HopRecord> {
    hops.map_values(|h: Hop| h@)
}

/// The route to the host of a connection: the route to its jump host, if it
/// has one, and then the host itself.
pub open spec fn route_of(config: ConnectionConfig) -> Seq<HopRecord>
    decreases config,
{
    let last = HopRecord {
        host: config.host@,
        port: config.port,
        username: config.username@,
        credentials: config.auth_method@,
    };
    match config.jump_host {
        Some(jump) => route_of(*jump).push(last),
        None => seq![last],
    }
}

/// The route to the host of a connection.
pub fn route(config: ConnectionConfig) -> (hops: Vec<Hop>)
    ensures
        hop_records(hops@) == route_of(config),
        hops@.len() >= 1,
    decreases config,
{
    let ConnectionConfig { host, port, username, auth_method, jump_host, .. } = config;
    let last = Hop { host, port, username, auth_method };
    let mut hops = match jump_host {
        Some(jump) => route(*jump),
        None => Vec::new(),
    };
    hops.push(last);
    hops
}

/// The states of one session.
#[derive(Clone, Copy, Debug, PartialEq, Eq, Structural)]
pub enum SessionState {
    /// A connection to the host is being made: over TCP to the first host of
    /// the route, over a channel of the session before to any other.
    Connecting,
    /// The two sides are agreeing on the session.
    Handshaking,
    /// The user is being logged in.
    Authenticating,
    /// The session stands and the user is logged in.
    Active,
    /// The session is over. Nothing follows.
    Closed,
}

/// What happened on the network since the builder last spoke.
#[derive(Debug)]
pub enum SessionEvent {
    /// The connection or the channel that was asked for is open.
    Connected,
    /// The two sides have agreed on the session.
    Handshaken,
    /// The key file was read, and this is its text.
    KeyFileRead { text: String },
    /// The key file could not be read.
    KeyFileUnreadable { reason: String },
    /// The server answered the attempt to log in.
    Authenticated { accepted: bool },
    /// What was asked for failed, or the connection was lost.
    Failed { reason: String },
}

/// What happened on the network, as text.
pub ghost enum Happening {
    Connected,
    Handshaken,
    KeyFileRead { text: Seq<char> },
    KeyFileUnreadable { reason: Seq<char> },
    Authenticated { accepted: bool },
    Failed { reason: Seq<char> },
}

impl View for SessionEvent {
    type V = Happening;

    open spec fn view(&self) -> Happening {
        match self {
            SessionEvent::Connected => Happening::Connected,
            SessionEvent::Handshaken => Happening::Handshaken,
            SessionEvent::KeyFileRead { text } => Happening::KeyFileRead { text: text@ },
            SessionEvent::KeyFileUnreadable { reason } => Happening::KeyFileUnreadable {
                reason: reason@,
            },
            SessionEvent::Authenticated { accepted } => Happening::Authenticated {
                accepted: *accepted,
            },
            SessionEvent::Failed { reason } => Happening::Failed { reason: reason@ },
        }
    }
}

/// What is to be done next.
pub enum SessionAction {
    /// Wait: what happened asks for nothing.
    Nothing,
    /// Open a TCP connection to the host and port.
    ConnectTcp { host: String, port: u16 },
    /// Open a channel through the session that was built last.
    OpenChannel { request: DirectTcpip },
    /// Agree on a session over the connection or channel that was opened last.
    /// With `keep_parent`, the new session's handler takes over the session
    /// that the channel belongs to and holds it for as long as it lives.
    Handshake { keep_parent: bool },
    /// Read the key file at the path.
    ReadKeyFile { path: String },
    /// Log in with the password.
    AuthenticatePassword { username: String, password: String },
    /// Log in with the key.
    AuthenticatePublicKey { username: String, key: KeyPair },
    /// Hand the session that was built last to the caller: the user is logged
    /// in at the target.
    Ready,
    /// Give up, and drop what was built.
    Fail { error: SessionError },
}

/// What is to be done next, as text. Of a key, only the user is told.
pub ghost enum Task {
    Nothing,
    ConnectTcp { host: Seq<char>, port: u16 },
    OpenChannel {
        to_host: Seq<char>,
        to_port: u32,
        originator_address: Seq<char>,
        originator_port: u32,
    },
    Handshake { keep_parent: bool },
    ReadKeyFile { path: Seq<char> },
    AuthenticatePassword { username: Seq<char>, password: Seq<char> },
    AuthenticatePublicKey { username: Seq<char> },
    Ready,
    Fail { failure: Failure },
}

impl View for SessionAction {
    type V = Task;

    open spec fn view(&self) -> Task {
        match self {
            SessionAction::Nothing => Task::Nothing,
            SessionAction::ConnectTcp { host, port } => Task::ConnectTcp {
                host: host@,
                port: *port,
            },
            SessionAction::OpenChannel { request } => Task::OpenChannel {
                to_host: request.host@,
                to_port: request.port,
                originator_address: request.originator_address@,
                originator_port: request.originator_port,
            },
            SessionAction::Handshake { keep_parent } => Task::Handshake {
                keep_parent: *keep_parent,
            },
            SessionAction::ReadKeyFile { path } => Task::ReadKeyFile { path: path@ },
            SessionAction::AuthenticatePassword { username, password } => {
                Task::AuthenticatePassword { username: username@, password: password@ }
            },
            SessionAction::AuthenticatePublicKey { username, key } => {
                Task::AuthenticatePublicKey { username: username@ }
            },
            SessionAction::Ready => Task::Ready,
            SessionAction::Fail { error } => Task::Fail { failure: error@ },
        }
    }
}

/// Where the building of a session stands: the route, the host on it whose
/// session is being built, and the state of that session.
pub ghost struct Progress {
    pub route: Seq<HopRecord>,
    pub home: Option<Seq<char>>,
    pub position: int,
    pub state: SessionState,
}

impl Progress {
    /// The host whose session is being built.
    pub open spec fn hop(self) -> HopRecord {
        self.route[self.position]
    }

    /// Through how many hosts a failure here reaches the caller: those that
    /// were to be reached through this one.
    pub open spec fn levels(self) -> nat {
        (self.route.len() - 1 - self.position) as nat
    }

    /// The session is over.
    pub open spec fn close(self) -> Progress {
        Progress { state: SessionState::Closed, ..self }
    }

    /// The session is in another state.
    pub open spec fn enter(self, state: SessionState) -> Progress {
        Progress { state, ..self }
    }

    /// Giving up for the given reason.
    pub open spec fn fail(self, failure: Failure) -> (Progress, Task) {
        (self.close(), Task::Fail { failure: through_jumps(failure, self.levels()) })
    }

    /// How the user is logged in once the two sides have agreed: by password at
    /// once, by key after the key file has been read. A leading `~` in the
    /// file's path stands for the home directory.
    pub open spec fn log_in(self) -> Task {
        match self.hop().credentials {
            Credentials::Password { password } => Task::AuthenticatePassword {
                username: self.hop().username,
                password,
            },
            Credentials::PrivateKey { key_path, passphrase } => Task::ReadKeyFile {
                path: expand_home(key_path, self.home),
            },
        }
    }

    /// What follows once the key file's text has been decoded, or has not, for
    /// the reason given.
    pub open spec fn after_decoding(self, refusal: Option<Seq<char>>) -> (Progress, Task) {
        match refusal {
            None => (self, Task::AuthenticatePublicKey { username: self.hop().username }),
            Some(reason) => self.fail(Failure::KeyDecode { message: reason }),
        }
    }

    /// What follows once the user is logged in: the session of the target is
    /// ready; that of a jump host is asked for a channel to the next host of
    /// the route, with `0.0.0.0` and port 0 named as the origin.
    pub open spec fn after_login(self) -> (Progress, Task) {
        if self.position + 1 == self.route.len() {
            (self.enter(SessionState::Active), Task::Ready)
        } else {
            let next = self.route[self.position + 1];
            (
                Progress { position: self.position + 1, state: SessionState::Connecting, ..self },
                Task::OpenChannel {
                    to_host: next.host,
                    to_port: next.port as u32,
                    originator_address: "0.0.0.0"@,
                    originator_port: 0,
                },
            )
        }
    }

    /// Whether the key file's text is awaited: whether the session is logging
    /// in a user who has a key.
    pub open spec fn awaits_key_file(self) -> bool {
        self.state == SessionState::Authenticating && self.hop().credentials is PrivateKey
    }

    /// What follows what happened. The text of a key file is decoded with the
    /// passphrase of the host's credentials, and what follows is what follows
    /// its decoding. An event that the state does not wait for changes nothing
    /// and asks for nothing.
    pub open spec fn after(self, happening: Happening) -> (Progress, Task) {
        match (self.state, happening) {
            (SessionState::Connecting, Happening::Connected) => (
                self.enter(SessionState::Handshaking),
                Task::Handshake { keep_parent: self.position > 0 },
            ),
            (SessionState::Connecting, Happening::Failed { reason }) => self.fail(
                Failure::Transport {
                    message: if self.position > 0 {
                        "Failed to open direct-tcpip channel on jump host: "@ + reason
                    } else {
                        reason
                    },
                },
            ),
            (SessionState::Handshaking, Happening::Handshaken) => (
                self.enter(SessionState::Authenticating),
                self.log_in(),
            ),
            (SessionState::Handshaking, Happening::Failed { reason }) => self.fail(
                Failure::Handshake { message: reason },
            ),
            (SessionState::Authenticating, Happening::KeyFileRead { text }) => {
                match self.hop().credentials {
                    Credentials::PrivateKey { key_path, passphrase } => self.after_decoding(
                        key_refusal(text, passphrase),
                    ),
                    Credentials::Password { password } => (self, Task::Nothing),
                }
            },
            (SessionState::Authenticating, Happening::KeyFileUnreadable { reason }) => {
                if self.awaits_key_file() {
                    self.fail(Failure::KeyFile { message: reason })
                } else {
                    (self, Task::Nothing)
                }
            },
            (SessionState::Authenticating, Happening::Authenticated { accepted }) => {
                if accepted {
                    self.after_login()
                } else {
                    self.fail(Failure::Auth)
                }
            },
            (SessionState::Authenticating, Happening::Failed { reason }) => self.fail(
                Failure::Transport { message: reason },
            ),
            (SessionState::Active, Happening::Failed { reason }) => self.fail(
                Failure::Transport { message: reason },
            ),
            _ => (self, Task::Nothing),
        }
    }
}

/// A session that is closed stays closed: whatever happens, nothing changes
/// and nothing is asked for.
pub proof fn lemma_closed_is_final(
    progress: Progress,
    happening: Happening,
    next: Progress,
    task: Task,
)
    requires
        progress.state == SessionState::Closed,
        (next, task) == progress.after(happening),
    ensures
        next == progress,
        task == Task::Nothing,
{
}

/// Once the user is logged in at the target, they stay logged in until the
/// session is closed, and only a failure closes it.
pub proof fn lemma_active_until_closed(
    progress: Progress,
    happening: Happening,
    next: Progress,
    task: Task,
)
    requires
        progress.state == SessionState::Active,
        (next, task) == progress.after(happening),
    ensures
        next.state == SessionState::Active || next.state == SessionState::Closed,
        next.state == SessionState::Closed <==> happening is Failed,
{
}

/// Every session that runs through a jump host keeps the jump host's session:
/// the handshake of a session is asked for with the parent to keep exactly when
/// the session is not the first of the route.
pub proof fn lemma_child_keeps_parent(
    progress: Progress,
    happening: Happening,
    next: Progress,
    task: Task,
)
    requires
        (next, task) == progress.after(happening),
        task is Handshake,
    ensures
        task == (Task::Handshake { keep_parent: progress.position > 0 }),
        next.position == progress.position,
{
}

/// The steps come in order. A handshake is asked for only once the connection
/// or the channel is open; a login only once the handshake is done; a channel
/// to the next host only once the user is logged in at the host before it; and
/// the session is ready only once the user is logged in at the target.
pub proof fn lemma_steps_in_order(
    progress: Progress,
    happening: Happening,
    next: Progress,
    task: Task,
)
    requires
        0 <= progress.position < progress.route.len(),
        (next, task) == progress.after(happening),
    ensures
        task is Handshake ==> progress.state == SessionState::Connecting && happening is Connected,
        task is ReadKeyFile || task is AuthenticatePassword ==> progress.state
            == SessionState::Handshaking && happening is Handshaken,
        task is AuthenticatePublicKey ==> progress.state == SessionState::Authenticating
            && happening is KeyFileRead,
        task is OpenChannel ==> {
            &&& progress.state == SessionState::Authenticating
            &&& happening == (Happening::Authenticated { accepted: true })
            &&& next.position == progress.position + 1
            &&& next.state == SessionState::Connecting
            &&& task == (Task::OpenChannel {
                to_host: progress.route[next.position].host,
                to_port: progress.route[next.position].port as u32,
                originator_address: "0.0.0.0"@,
                originator_port: 0,
            })
        },
        task is Ready ==> {
            &&& progress.state == SessionState::Authenticating
            &&& happening == (Happening::Authenticated { accepted: true })
            &&& progress.position == progress.route.len() - 1
            &&& next.state == SessionState::Active
        },
        next.route == progress.route,
        next.home == progress.home,
        progress.position <= next.position < progress.route.len(),
{
}

/// How far the building has come: three steps for each host that is done
/// with, and one for each state that the session of the current host has left.
/// An active session has all hosts behind it, and a closed one is beyond that.
pub open spec fn steps_taken(progress: Progress) -> int {
    match progress.state {
        SessionState::Connecting => 3 * progress.position,
        SessionState::Handshaking => 3 * progress.position + 1,
        SessionState::Authenticating => 3 * progress.position + 2,
        SessionState::Active => 3 * progress.route.len() as int,
        SessionState::Closed => 3 * progress.route.len() as int + 1,
    }
}

/// The building never goes back, and it goes forward with every handshake,
/// every channel and every end: so the session of each host is agreed on at
/// most once, after those of the hosts before it, and once a session is active
/// or closed no host is connected to again.
pub proof fn lemma_building_never_goes_back(
    progress: Progress,
    happening: Happening,
    next: Progress,
    task: Task,
)
    requires
        0 <= progress.position < progress.route.len(),
        (next, task) == progress.after(happening),
    ensures
        steps_taken(next) >= steps_taken(progress),
        task is Handshake || task is OpenChannel || task is Ready || task is Fail ==> steps_taken(
            next,
        ) > steps_taken(progress),
        task is Handshake ==> steps_taken(progress) == 3 * progress.position,
{
}

/// A failure is reported through as many jump hosts as were to be reached
/// through the host at which it occurred, and it closes the session.
pub proof fn lemma_failure_closes(
    progress: Progress,
    happening: Happening,
    next: Progress,
    task: Task,
)
    requires
        (next, task) == progress.after(happening),
        task is Fail,
    ensures
        next.state == SessionState::Closed,
        exists|cause: Failure|
            !(cause is JumpHost) && task == (Task::Fail {
                failure: #[trigger] through_jumps(cause, progress.levels()),
            }),
{
}

/// Where the building stands once the session of the current host has been
/// connected, agreed on and logged in to, one after the other.
pub open spec fn after_hop(progress: Progress) -> Progress {
    progress.after(Happening::Connected).0.after(Happening::Handshaken).0.after(
        Happening::Authenticated { accepted: true },
    ).0
}

/// Where the building stands once that has been done for `count` hosts.
pub open spec fn after_hops(progress: Progress, count: nat) -> Progress
    decreases count,
{
    if count == 0 {
        progress
    } else {
        after_hop(after_hops(progress, (count - 1) as nat))
    }
}

/// Where nothing fails, the hosts of the route are logged in to one after the
/// other, the first of them first, and when the last has been logged in to the
/// session is active at the target.
pub proof fn lemma_route_is_walked_in_order(
    route: Seq<HopRecord>,
    home: Option<Seq<char>>,
    count: nat,
)
    requires
        count <= route.len(),
        route.len() >= 1,
    ensures
        count < route.len() ==> after_hops(
            Progress { route, home, position: 0, state: SessionState::Connecting },
            count,
        ) == (Progress { route, home, position: count as int, state: SessionState::Connecting }),
        count == route.len() ==> after_hops(
            Progress { route, home, position: 0, state: SessionState::Connecting },
            count,
        ) == (Progress {
            route,
            home,
            position: route.len() - 1,
            state: SessionState::Active,
        }),
    decreases count,
{
    if count > 0 {
        lemma_route_is_walked_in_order(route, home, (count - 1) as nat);
    }
}

/// The reason for which a key file's text was refused, if it was.
pub open spec fn refusal_of(decoded: Result<KeyPair, String>) -> Option<Seq<char>> {
    match decoded {
        Ok(_) => None,
        Err(reason) => Some(reason@),
    }
}

/// The error as it reaches the caller through `levels` hosts.
fn wrap_in_jumps(error: SessionError, levels: usize) -> (wrapped: SessionError)
    ensures
        wrapped@ == through_jumps(error@, levels as nat),
{
    let mut wrapped = error;
    let mut done: usize = 0;
    while done < levels
        invariant
            done <= levels,
            wrapped@ == through_jumps(error@, done as nat),
        decreases levels - done,
    {
        wrapped = SessionError::JumpHost { inner: Box::new(wrapped) };
        done += 1;
    }
    wrapped
}

/// The builder of a session along a route.
pub struct SessionBuilder {
    hops: Vec<Hop>,
    home: Option<String>,
    position: usize,
    state: SessionState,
}

impl SessionBuilder {
    #[verifier::type_invariant]
    spec fn well_formed(self) -> bool {
        self.position < self.hops@.len()
    }

    /// Where the building stands.
    pub closed spec fn progress(&self) -> Progress {
        Progress {
            route: hop_records(self.hops@),
            home: text_of(self.home),
            position: self.position as int,
            state: self.state,
        }
    }

    /// Begins to build a session to the host of `config`, through its jump
    /// hosts. The first thing to do is to open a TCP connection to the first
    /// host of the route. `home` is the directory that a leading `~` in the
    /// path of a key file stands for.
    pub fn new(config: ConnectionConfig, home: Option<String>) -> (begun: (
        SessionBuilder,
        SessionAction,
    ))
        ensures
            begun.0.progress() == (Progress {
                route: route_of(config),
                home: text_of(home),
                position: 0,
                state: SessionState::Connecting,
            }),
            begun.1@ == (Task::ConnectTcp {
                host: route_of(config)[0].host,
                port: route_of(config)[0].port,
            }),
    {
        let hops = route(config);
        let first = SessionAction::ConnectTcp { host: hops[0].host.clone(), port: hops[0].port };
        (SessionBuilder { hops, home, position: 0, state: SessionState::Connecting }, first)
    }

    /// The state of the session that is being built.
    pub fn state(&self) -> (state: SessionState)
        ensures
            state == self.progress().state,
    {
        self.state
    }

    /// The index on the route of the host whose session is being built.
    pub fn position(&self) -> (position: usize)
        ensures
            position == self.progress().position,
            position < self.progress().route.len(),
    {
        proof {
            use_type_invariant(self);
        }
        self.position
    }

    /// The number of hosts on the route.
    pub fn route_len(&self) -> (n: usize)
        ensures
            n == self.progress().route.len(),
    {
        self.hops.len()
    }

    fn fail(&mut self, error: SessionError) -> (action: SessionAction)
        ensures
            (final(self).progress(), action@) == old(self).progress().fail(error@),
    {
        proof {
            use_type_invariant(&*self);
        }
        let levels = self.hops.len() - 1 - self.position;
        self.state = SessionState::Closed;
        SessionAction::Fail { error: wrap_in_jumps(error, levels) }
    }

    fn log_in(&self) -> (action: SessionAction)
        ensures
            action@ == self.progress().log_in(),
    {
        proof {
            use_type_invariant(self);
        }
        let hop = &self.hops[self.position];
        match &hop.auth_method {
            AuthMethod::Password { password } => SessionAction::AuthenticatePassword {
                username: hop.username.clone(),
                password: password.clone(),
            },
            AuthMethod::PrivateKey { key_path, passphrase } => {
                let path = to_chars(key_path.as_str());
                let expanded = match &self.home {
                    Some(dir) => expand_home_path(path.as_slice(), Some(dir.as_str())),
                    None => expand_home_path(path.as_slice(), None),
                };
                SessionAction::ReadKeyFile { path: expanded }
            },
        }
    }

    fn after_login(&mut self) -> (action: SessionAction)
        ensures
            (final(self).progress(), action@) == old(self).progress().after_login(),
    {
        proof {
            use_type_invariant(&*self);
        }
        if self.position == self.hops.len() - 1 {
            self.state = SessionState::Active;
            SessionAction::Ready
        } else {
            self.position = self.position + 1;
            self.state = SessionState::Connecting;
            let next = &self.hops[self.position];
            SessionAction::OpenChannel {
                request: DirectTcpip {
                    host: next.host.clone(),
                    port: next.port as u32,
                    originator_address: "0.0.0.0".to_string(),
                    originator_port: 0,
                },
            }
        }
    }

    /// Takes in the outcome of decoding the key file's text: the key, or the
    /// reason for which the text was refused. With the key the user is logged
    /// in; without it the session is closed. Where no key file's text is
    /// awaited, nothing changes and nothing is asked for.
    pub fn key_decoded(&mut self, decoded: Result<KeyPair, String>) -> (action: SessionAction)
        ensures
            (final(self).progress(), action@) == if old(self).progress().awaits_key_file() {
                old(self).progress().after_decoding(refusal_of(decoded))
            } else {
                (old(self).progress(), Task::Nothing)
            },
            old(self).progress().awaits_key_file() ==> (decoded matches Ok(decoded_key) ==> {
                &&& action matches SessionAction::AuthenticatePublicKey { key, .. }
                &&& key == decoded_key
            }),
    {
        proof {
            use_type_invariant(&*self);
        }
        let awaited = match (self.state, &self.hops[self.position].auth_method) {
            (SessionState::Authenticating, AuthMethod::PrivateKey { .. }) => true,
            _ => false,
        };
        if !awaited {
            return SessionAction::Nothing;
        }
        match decoded {
            Ok(key) => SessionAction::AuthenticatePublicKey {
                username: self.hops[self.position].username.clone(),
                key,
            },
            Err(reason) => self.fail(SessionError::KeyDecode { message: reason }),
        }
    }

    /// Takes in what happened and says what is to be done next. The text of a
    /// key file that is awaited is decoded here, with the passphrase of the
    /// host's credentials: accepted, the user is logged in with the key; refused,
    /// the session is closed with the words of the refusal.
    pub fn step(&mut self, event: SessionEvent) -> (action: SessionAction)
        ensures
            (final(self).progress(), action@) == old(self).progress().after(event@),
    {
        proof {
            use_type_invariant(&*self);
        }
        match (self.state, event) {
            (SessionState::Connecting, SessionEvent::Connected) => {
                self.state = SessionState::Handshaking;
                SessionAction::Handshake { keep_parent: self.position > 0 }
            },
            (SessionState::Connecting, SessionEvent::Failed { reason }) => {
                let message = if self.position > 0 {
                    let mut message = "Failed to open direct-tcpip channel on jump host: "
                        .to_string();
                    message.append(reason.as_str());
                    message
                } else {
                    reason
                };
                self.fail(SessionError::Transport { message })
            },
            (SessionState::Handshaking, SessionEvent::Handshaken) => {
                self.state = SessionState::Authenticating;
                self.log_in()
            },
            (SessionState::Handshaking, SessionEvent::Failed { reason }) => self.fail(
                SessionError::Handshake { message: reason },
            ),
            (SessionState::Authenticating, SessionEvent::KeyFileRead { text }) => {
                match &self.hops[self.position].auth_method {
                    AuthMethod::PrivateKey { passphrase, .. } => {
                        let decoded = match passphrase {
                            Some(phrase) => decode_secret_key(text.as_str(), Some(phrase.as_str())),
                            None => decode_secret_key(text.as_str(), None),
                        };
                        self.key_decoded(decoded)
                    },
                    AuthMethod::Password { .. } => SessionAction::Nothing,
                }
            },
            (SessionState::Authenticating, SessionEvent::KeyFileUnreadable { reason }) => {
                match &self.hops[self.position].auth_method {
                    AuthMethod::PrivateKey { .. } => self.fail(
                        SessionError::KeyFile { message: reason },
                    ),
                    AuthMethod::Password { .. } => SessionAction::Nothing,
                }
            },
            (SessionState::Authenticating, SessionEvent::Authenticated { accepted }) => {
                if accepted {
                    self.after_login()
                } else {
                    self.fail(SessionError::Auth)
                }
            },
            (SessionState::Authenticating, SessionEvent::Failed { reason }) => self.fail(
                SessionError::Transport { message: reason },
            ),
            (SessionState::Active, SessionEvent::Failed { reason }) => self.fail(
                SessionError::Transport { message: reason },
            ),
            _ => SessionAction::Nothing,
        }
    }
}

/// The maker of sessions.
pub struct SshManager {}

impl SshManager {
    pub fn new() -> SshManager {
        SshManager {  }
    }

    /// Begins to build a session to the host of `config`, through its jump
    /// hosts, for the user who runs the process: a leading `~` in the path of a
    /// key file stands for that user's home directory, where the system names
    /// one.
    pub fn connect(&self, config: ConnectionConfig) -> (begun: (SessionBuilder, SessionAction))
        ensures
            begun.0.progress().route == route_of(config),
            begun.0.progress().position == 0,
            begun.0.progress().state == SessionState::Connecting,
            begun.1@ == (Task::ConnectTcp {
                host: route_of(config)[0].host,
                port: route_of(config)[0].port,
            }),
    {
        SessionBuilder::new(config, home_directory())
    }
}

/// The part of a session that answers the server. It holds the session of the
/// jump host, if the session runs through one, so that the jump host's session
/// lasts as long as this one.
pub struct Client<S> {
    pub kept_alive_session: Option<Arc<S>>,
}

impl<S> Client<S> {
    /// The answerer of a session that runs over a connection of its own.
    pub fn direct() -> (client: Client<S>)
        ensures
            client.kept_alive_session is None,
    {
        Client { kept_alive_session: None }
    }

    /// The answerer of a session that runs through the session `parent`.
    pub fn through(parent: S) -> (client: Client<S>)
        ensures
            client.kept_alive_session matches Some(kept) && *kept == parent,
    {
        Client { kept_alive_session: Some(Arc::new(parent)) }
    }

    /// Whether the server's host key is accepted: always. No known hosts are
    /// kept and the user is not asked.
    pub fn check_server_key(&self) -> (accept: bool)
        ensures
            accept,
    {
        true
    }

    /// Decides where traffic goes that the server forwards from the port
    /// `connected_port`: to the local target that is registered for the port
    /// with `tunnel_manager`, or nowhere if none is.
    pub fn server_channel_open_forwarded_tcpip(
        &self,
        tunnel_manager: &TunnelManager,
        connected_port: u32,
    ) -> (route: InboundRoute)
        ensures
            crate::tunnel::route_is(tunnel_manager.registries().remote, connected_port, route),
    {
        tunnel_manager.route_forwarded(connected_port)
    }
}

} // verus!
