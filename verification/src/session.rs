use vstd::prelude::*;
use vstd::utf8::{decode_utf8, valid_utf8};

use crate::address::{ipv4_value, IpAddress, SocketAddress};
use crate::wire::{be_u16, read_u16_be, utf8_string};

verus! {

/// Why a session stopped without finishing cleanly.
#[derive(Clone, Copy, Debug, PartialEq, Eq)]
pub enum SocksError {
    /// The client's stream ended, or a read came up short, in the middle of a message.
    UnexpectedEof,
    /// The username/password sub-negotiation did not carry version 1.
    WrongAuthVersion,
    /// The request named an address type other than IPv4 (1) or a domain name (3).
    InvalidAddressType,
    /// The domain name of the request did not resolve to any address.
    EmptyAddress,
    /// The connection to the requested address could not be opened.
    ConnectFailed,
    /// The success reply to the client could not be written.
    ReplyFailed,
    /// The caller reported an outcome that does not answer the pending action.
    UnexpectedEvent,
}

/// What the session asks its driver to do next.
#[derive(Debug, PartialEq, Eq)]
pub enum Action {
    /// Read exactly this many bytes from the client and report them with `Event::Received`,
    /// or report `Event::Closed` when the stream ends first.
    Read(usize),
    /// Write these bytes to the client and report `Event::Written`.
    Reply(Vec<u8>),
    /// Hand this username to the client trackers, then report `Event::Done`.
    Track(String),
    /// Log this requested host name, then report `Event::Done`.
    Log(String),
    /// Resolve this host name and report `Event::Resolved`.
    Resolve(String),
    /// Open a connection to this address and report `Event::Connected`.
    Connect(SocketAddress),
    /// Relay traffic between the client and the opened connection until either
    /// side stops, then report `Event::Done`.
    Relay,
    /// The session is over; close the client's connection.
    Close,
    /// The session failed.
    Fail(SocksError),
}

/// What the driver reports back after carrying out an action.
#[derive(Debug, PartialEq, Eq)]
pub enum Event {
    /// The bytes read for a `Read`.
    Received(Vec<u8>),
    /// A `Read` could not be completed: the stream ended or failed.
    Closed,
    /// A `Reply` was carried out; whether the write succeeded.
    Written(bool),
    /// A `Track`, `Log` or `Relay` was carried out.
    Done,
    /// The outcome of a `Resolve`: the first address found, if any.
    Resolved(Option<SocketAddress>),
    /// The outcome of a `Connect`.
    Connected(bool),
}

/// The mathematical form of an [`Action`].
pub enum ActionView {
    Read(nat),
    Reply(Seq<u8>),
    Track(Seq<char>),
    Log(Seq<char>),
    Resolve(Seq<char>),
    Connect(SocketAddress),
    Relay,
    Close,
    Fail(SocksError),
}

/// The mathematical form of an [`Event`].
pub enum EventView {
    Received(Seq<u8>),
    Closed,
    Written(bool),
    Done,
    Resolved(Option<SocketAddress>),
    Connected(bool),
}

impl View for Action {
    type V = ActionView;

    open spec fn view(&self) -> ActionView {
        match self {
            Action::Read(n) => ActionView::Read(*n as nat),
            Action::Reply(b) => ActionView::Reply(b@),
            Action::Track(s) => ActionView::Track(s@),
            Action::Log(s) => ActionView::Log(s@),
            Action::Resolve(s) => ActionView::Resolve(s@),
            Action::Connect(a) => ActionView::Connect(*a),
            Action::Relay => ActionView::Relay,
            Action::Close => ActionView::Close,
            Action::Fail(e) => ActionView::Fail(*e),
        }
    }
}

impl View for Event {
    type V = EventView;

    open spec fn view(&self) -> EventView {
        match self {
            Event::Received(b) => EventView::Received(b@),
            Event::Closed => EventView::Closed,
            Event::Written(ok) => EventView::Written(*ok),
            Event::Done => EventView::Done,
            Event::Resolved(a) => EventView::Resolved(*a),
            Event::Connected(ok) => EventView::Connected(*ok),
        }
    }
}

/// Where a session stands: what it waits for.
pub enum Stage {
    /// The version byte of a greeting.
    Version,
    /// The number of authentication methods the client offers.
    MethodCount,
    /// The `count` method bytes.
    Methods { count: u8 },
    /// The write of the method selection; `auth` when username/password was chosen.
    GreetingReply { auth: bool },
    /// The version byte of the username/password sub-negotiation.
    AuthVersion,
    /// The username length byte. The name bytes that follow it are not read:
    /// the name is taken as empty.
    AuthUserLen,
    /// The next byte, taken as the password length; the password bytes are not
    /// read either. When the client sent a non-empty username, this byte is
    /// the username's first byte.
    AuthPassLen,
    /// The hand-over of the username, which is always empty, to the trackers.
    AuthTrack,
    /// The write of the sub-negotiation status.
    AuthReply,
    /// The four header bytes of a request: version, command, reserved, address type.
    RequestHeader,
    /// The four octets of an IPv4 address.
    Ipv4Address,
    /// The port that follows the IPv4 address `ip`.
    Ipv4Port { ip: Seq<u8> },
    /// The length byte of a domain name.
    HostLen,
    /// The `len` bytes of a domain name.
    HostName { len: u8 },
    /// The port that follows the domain name `host`.
    HostPort { host: Seq<char> },
    /// The logging of `host`; `port` is the requested port.
    HostLogged { host: Seq<char>, port: u16 },
    /// The resolution of the host; `port` is the requested port.
    Resolving { port: u16 },
    /// The opening of the outbound connection.
    Connecting,
    /// The write of the success reply.
    ConnectReply,
    /// The end of the relay.
    Relaying,
    /// Nothing: the session ended cleanly.
    Finished,
    /// Nothing: the session failed with `error`.
    Failed { error: SocksError },
}

/// The method-selection message: `05 02` when the client offers
/// username/password (method 2), `05 00` (no authentication) otherwise.
pub open spec fn method_selection(auth: bool) -> Seq<u8> {
    if auth { seq![5u8, 2u8] } else { seq![5u8, 0u8] }
}

/// The status message of the username/password sub-negotiation: success.
pub open spec fn auth_success() -> Seq<u8> {
    seq![1u8, 0u8]
}

/// The reply to a request once the outbound connection is open: success, with
/// the bound address given as IPv4 127.0.0.1, port 0.
pub open spec fn connect_success() -> Seq<u8> {
    seq![5u8, 0u8, 0u8, 1u8, 127u8, 0u8, 0u8, 1u8, 0u8, 0u8]
}

/// The host name carried by a domain-name request: the bytes as UTF-8, or
/// the empty name when they are not valid UTF-8.
pub open spec fn host_name(bytes: Seq<u8>) -> Seq<char> {
    if valid_utf8(bytes) { decode_utf8(bytes) } else { Seq::empty() }
}

/// The request's IPv4 destination: octets `ip` and the port bytes `hi lo`.
pub open spec fn ipv4_destination(ip: Seq<u8>, hi: u8, lo: u8) -> SocketAddress {
    SocketAddress {
        ip: IpAddress::V4(ipv4_value(ip[0], ip[1], ip[2], ip[3]) as u32),
        port: be_u16(hi, lo),
        flowinfo: 0,
        scope_id: 0,
    }
}

/// The event answers a read of `n` bytes.
pub open spec fn read_ok(event: EventView, n: nat) -> bool {
    event matches EventView::Received(b) && b.len() == n
}

/// The event reports that a read of `n` bytes could not be completed.
pub open spec fn read_eof(event: EventView, n: nat) -> bool {
    ||| event is Closed
    ||| (event matches EventView::Received(b) && b.len() != n)
}

/// The bytes of a `Received` event.
pub open spec fn received(event: EventView) -> Seq<u8> {
    match event {
        EventView::Received(b) => b,
        _ => Seq::empty(),
    }
}

pub open spec fn fail(e: SocksError) -> (Stage, ActionView) {
    (Stage::Failed { error: e }, ActionView::Fail(e))
}

/// A failed read of `n` bytes: an ended stream or another event.
pub open spec fn read_failure(event: EventView, n: nat) -> (Stage, ActionView) {
    if read_eof(event, n) {
        fail(SocksError::UnexpectedEof)
    } else {
        fail(SocksError::UnexpectedEvent)
    }
}

/// The session's transition: from a stage and the outcome of the pending
/// action, the next stage and the next action.
pub open spec fn next(stage: Stage, event: EventView) -> (Stage, ActionView) {
    match stage {
        Stage::Version => {
            if read_ok(event, 1) {
                if received(event)[0] == 5 {
                    (Stage::MethodCount, ActionView::Read(1))
                } else {
                    (Stage::Finished, ActionView::Close)
                }
            } else if read_eof(event, 1) {
                (Stage::Finished, ActionView::Close)
            } else {
                fail(SocksError::UnexpectedEvent)
            }
        },
        Stage::MethodCount => {
            if read_ok(event, 1) {
                let n = received(event)[0];
                (Stage::Methods { count: n }, ActionView::Read(n as nat))
            } else {
                read_failure(event, 1)
            }
        },
        Stage::Methods { count } => {
            if read_ok(event, count as nat) {
                let auth = received(event).contains(2u8);
                (Stage::GreetingReply { auth }, ActionView::Reply(method_selection(auth)))
            } else {
                read_failure(event, count as nat)
            }
        },
        Stage::GreetingReply { auth } => {
            if event is Written {
                if auth {
                    (Stage::AuthVersion, ActionView::Read(1))
                } else {
                    (Stage::RequestHeader, ActionView::Read(4))
                }
            } else {
                fail(SocksError::UnexpectedEvent)
            }
        },
        Stage::AuthVersion => {
            if read_ok(event, 1) {
                if received(event)[0] == 1 {
                    (Stage::AuthUserLen, ActionView::Read(1))
                } else {
                    fail(SocksError::WrongAuthVersion)
                }
            } else {
                read_failure(event, 1)
            }
        },
        Stage::AuthUserLen => {
            if read_ok(event, 1) {
                (Stage::AuthPassLen, ActionView::Read(1))
            } else {
                read_failure(event, 1)
            }
        },
        Stage::AuthPassLen => {
            if read_ok(event, 1) {
                (Stage::AuthTrack, ActionView::Track(Seq::empty()))
            } else {
                read_failure(event, 1)
            }
        },
        Stage::AuthTrack => {
            if event is Done {
                (Stage::AuthReply, ActionView::Reply(auth_success()))
            } else {
                fail(SocksError::UnexpectedEvent)
            }
        },
        Stage::AuthReply => {
            if event is Written {
                (Stage::RequestHeader, ActionView::Read(4))
            } else {
                fail(SocksError::UnexpectedEvent)
            }
        },
        Stage::RequestHeader => {
            if read_ok(event, 4) {
                let atyp = received(event)[3];
                if atyp == 1 {
                    (Stage::Ipv4Address, ActionView::Read(4))
                } else if atyp == 3 {
                    (Stage::HostLen, ActionView::Read(1))
                } else {
                    fail(SocksError::InvalidAddressType)
                }
            } else {
                read_failure(event, 4)
            }
        },
        Stage::Ipv4Address => {
            if read_ok(event, 4) {
                (Stage::Ipv4Port { ip: received(event) }, ActionView::Read(2))
            } else {
                read_failure(event, 4)
            }
        },
        Stage::Ipv4Port { ip } => {
            if read_ok(event, 2) {
                let p = received(event);
                (Stage::Connecting, ActionView::Connect(ipv4_destination(ip, p[0], p[1])))
            } else {
                read_failure(event, 2)
            }
        },
        Stage::HostLen => {
            if read_ok(event, 1) {
                let n = received(event)[0];
                (Stage::HostName { len: n }, ActionView::Read(n as nat))
            } else {
                read_failure(event, 1)
            }
        },
        Stage::HostName { len } => {
            if read_ok(event, len as nat) {
                (Stage::HostPort { host: host_name(received(event)) }, ActionView::Read(2))
            } else {
                read_failure(event, len as nat)
            }
        },
        Stage::HostPort { host } => {
            if read_ok(event, 2) {
                let p = received(event);
                (Stage::HostLogged { host, port: be_u16(p[0], p[1]) }, ActionView::Log(host))
            } else {
                read_failure(event, 2)
            }
        },
        Stage::HostLogged { host, port } => {
            if event is Done {
                (Stage::Resolving { port }, ActionView::Resolve(host))
            } else {
                fail(SocksError::UnexpectedEvent)
            }
        },
        Stage::Resolving { port } => {
            match event {
                EventView::Resolved(Some(a)) => (
                    Stage::Connecting,
                    ActionView::Connect(SocketAddress { port, ..a }),
                ),
                EventView::Resolved(None) => fail(SocksError::EmptyAddress),
                _ => fail(SocksError::UnexpectedEvent),
            }
        },
        Stage::Connecting => {
            match event {
                EventView::Connected(true) => (Stage::ConnectReply, ActionView::Reply(connect_success())),
                EventView::Connected(false) => fail(SocksError::ConnectFailed),
                _ => fail(SocksError::UnexpectedEvent),
            }
        },
        Stage::ConnectReply => {
            match event {
                EventView::Written(true) => (Stage::Relaying, ActionView::Relay),
                EventView::Written(false) => fail(SocksError::ReplyFailed),
                _ => fail(SocksError::UnexpectedEvent),
            }
        },
        Stage::Relaying => {
            if event is Done {
                (Stage::Version, ActionView::Read(1))
            } else {
                fail(SocksError::UnexpectedEvent)
            }
        },
        Stage::Finished => (Stage::Finished, ActionView::Close),
        Stage::Failed { error } => fail(error),
    }
}


/// The stage of a session as the executable code holds it.
enum Phase {
    Version,
    MethodCount,
    Methods { count: u8 },
    GreetingReply { auth: bool },
    AuthVersion,
    AuthUserLen,
    AuthPassLen,
    AuthTrack,
    AuthReply,
    RequestHeader,
    Ipv4Address,
    Ipv4Port { ip: [u8; 4] },
    HostLen,
    HostName { len: u8 },
    HostPort { host: String },
    HostLogged { host: String, port: u16 },
    Resolving { port: u16 },
    Connecting,
    ConnectReply,
    Relaying,
    Finished,
    Failed { error: SocksError },
}

impl View for Phase {
    type V = Stage;

    closed spec fn view(&self) -> Stage {
        match self {
            Phase::Version => Stage::Version,
            Phase::MethodCount => Stage::MethodCount,
            Phase::Methods { count } => Stage::Methods { count: *count },
            Phase::GreetingReply { auth } => Stage::GreetingReply { auth: *auth },
            Phase::AuthVersion => Stage::AuthVersion,
            Phase::AuthUserLen => Stage::AuthUserLen,
            Phase::AuthPassLen => Stage::AuthPassLen,
            Phase::AuthTrack => Stage::AuthTrack,
            Phase::AuthReply => Stage::AuthReply,
            Phase::RequestHeader => Stage::RequestHeader,
            Phase::Ipv4Address => Stage::Ipv4Address,
            Phase::Ipv4Port { ip } => Stage::Ipv4Port { ip: ip@ },
            Phase::HostLen => Stage::HostLen,
            Phase::HostName { len } => Stage::HostName { len: *len },
            Phase::HostPort { host } => Stage::HostPort { host: host@ },
            Phase::HostLogged { host, port } => Stage::HostLogged { host: host@, port: *port },
            Phase::Resolving { port } => Stage::Resolving { port: *port },
            Phase::Connecting => Stage::Connecting,
            Phase::ConnectReply => Stage::ConnectReply,
            Phase::Relaying => Stage::Relaying,
            Phase::Finished => Stage::Finished,
            Phase::Failed { error } => Stage::Failed { error: *error },
        }
    }
}

/// One client's SOCKS5 conversation, from greeting to relay, as a state machine.
///
/// The driver carries out each [`Action`] that [`SocksSession::step`] returns
/// and reports its outcome as the next [`Event`]. The first action, returned
/// by [`SocksSession::new`], reads the greeting's version byte. After a relay
/// ends the session reads a new greeting on the same connection.
pub struct SocksSession {
    phase: Phase,
}

impl View for SocksSession {
    type V = Stage;

    closed spec fn view(&self) -> Stage {
        self.phase@
    }
}

/// How an event answers a read.
pub(crate) enum ReadOutcome {
    Bytes(Vec<u8>),
    Eof,
    Other,
}

pub(crate) fn classify(event: Event, n: usize) -> (r: ReadOutcome)
    ensures
        r matches ReadOutcome::Bytes(b) ==> read_ok(event@, n as nat) && b@ == received(event@),
        r is Eof ==> read_eof(event@, n as nat),
        r is Other ==> !read_ok(event@, n as nat) && !read_eof(event@, n as nat),
{
    match event {
        Event::Received(b) => {
            if b.len() == n {
                ReadOutcome::Bytes(b)
            } else {
                ReadOutcome::Eof
            }
        },
        Event::Closed => ReadOutcome::Eof,
        _ => ReadOutcome::Other,
    }
}

fn failed(e: SocksError) -> (r: (Phase, Action))
    ensures
        r.0@ == fail(e).0,
        r.1@ == fail(e).1,
{
    (Phase::Failed { error: e }, Action::Fail(e))
}

fn offers_user_pass(methods: &Vec<u8>) -> (r: bool)
    ensures
        r == methods@.contains(2u8),
{
    let mut i: usize = 0;
    while i < methods.len()
        invariant
            i <= methods@.len(),
            forall|j: int| 0 <= j < i ==> methods@[j] != 2u8,
        decreases methods@.len() - i,
    {
        if methods[i] == 2 {
            assert(methods@[i as int] == 2u8);
            return true;
        }
        i += 1;
    }
    false
}

fn method_selection_bytes(auth: bool) -> (r: Vec<u8>)
    ensures
        r@ == method_selection(auth),
{
    if auth {
        vec![5u8, 2u8]
    } else {
        vec![5u8, 0u8]
    }
}

impl SocksSession {
    /// A session waiting for a client's greeting, with its first action: read
    /// the version byte.
    pub fn new() -> (r: (SocksSession, Action))
        ensures
            r.0@ == Stage::Version,
            r.1@ == ActionView::Read(1),
    {
        (SocksSession { phase: Phase::Version }, Action::Read(1))
    }

    /// The session ended, cleanly or not; every further step repeats its last action.
    pub fn is_over(&self) -> (r: bool)
        ensures
            r == (self@ is Finished || self@ is Failed),
    {
        match self.phase {
            Phase::Finished => true,
            Phase::Failed { .. } => true,
            _ => false,
        }
    }

    /// Advances the session by the outcome of its pending action and returns
    /// the next action.
    pub fn step(&mut self, event: Event) -> (action: Action)
        ensures
            final(self)@ == next(old(self)@, event@).0,
            action@ == next(old(self)@, event@).1,
    {
        let mut phase = Phase::Finished;
        std::mem::swap(&mut phase, &mut self.phase);
        let (p, a) = transition(phase, event);
        self.phase = p;
        a
    }
}

fn transition(phase: Phase, event: Event) -> (r: (Phase, Action))
    ensures
        r.0@ == next(phase@, event@).0,
        r.1@ == next(phase@, event@).1,
{
    match phase {
        Phase::Version => on_version(event),
        Phase::MethodCount => on_method_count(event),
        Phase::Methods { count } => on_methods(count, event),
        Phase::GreetingReply { auth } => on_greeting_reply(auth, event),
        Phase::AuthVersion => on_auth_version(event),
        Phase::AuthUserLen => on_auth_user_len(event),
        Phase::AuthPassLen => on_auth_pass_len(event),
        Phase::AuthTrack => on_auth_track(event),
        Phase::AuthReply => on_auth_reply(event),
        Phase::RequestHeader => on_request_header(event),
        Phase::Ipv4Address => on_ipv4_address(event),
        Phase::Ipv4Port { ip } => on_ipv4_port(ip, event),
        Phase::HostLen => on_host_len(event),
        Phase::HostName { len } => on_host_name(len, event),
        Phase::HostPort { host } => on_host_port(host, event),
        Phase::HostLogged { host, port } => on_host_logged(host, port, event),
        Phase::Resolving { port } => on_resolving(port, event),
        Phase::Connecting => on_connecting(event),
        Phase::ConnectReply => on_connect_reply(event),
        Phase::Relaying => on_relaying(event),
        Phase::Finished => (Phase::Finished, Action::Close),
        Phase::Failed { error } => failed(error),
    }
}

fn on_version(event: Event) -> (r: (Phase, Action))
    ensures
        r.0@ == next(Stage::Version, event@).0,
        r.1@ == next(Stage::Version, event@).1,
{
    match classify(event, 1) {
        ReadOutcome::Bytes(b) => {
            if b[0] == 5 {
                (Phase::MethodCount, Action::Read(1))
            } else {
                (Phase::Finished, Action::Close)
            }
        },
        ReadOutcome::Eof => (Phase::Finished, Action::Close),
        ReadOutcome::Other => failed(SocksError::UnexpectedEvent),
    }
}

fn on_method_count(event: Event) -> (r: (Phase, Action))
    ensures
        r.0@ == next(Stage::MethodCount, event@).0,
        r.1@ == next(Stage::MethodCount, event@).1,
{
    match classify(event, 1) {
        ReadOutcome::Bytes(b) => {
            let n = b[0];
            (Phase::Methods { count: n }, Action::Read(n as usize))
        },
        ReadOutcome::Eof => failed(SocksError::UnexpectedEof),
        ReadOutcome::Other => failed(SocksError::UnexpectedEvent),
    }
}

fn on_methods(count: u8, event: Event) -> (r: (Phase, Action))
    ensures
        r.0@ == next(Stage::Methods { count }, event@).0,
        r.1@ == next(Stage::Methods { count }, event@).1,
{
    match classify(event, count as usize) {
        ReadOutcome::Bytes(b) => {
            let auth = offers_user_pass(&b);
            (Phase::GreetingReply { auth }, Action::Reply(method_selection_bytes(auth)))
        },
        ReadOutcome::Eof => failed(SocksError::UnexpectedEof),
        ReadOutcome::Other => failed(SocksError::UnexpectedEvent),
    }
}

fn on_greeting_reply(auth: bool, event: Event) -> (r: (Phase, Action))
    ensures
        r.0@ == next(Stage::GreetingReply { auth }, event@).0,
        r.1@ == next(Stage::GreetingReply { auth }, event@).1,
{
    match event {
        Event::Written(_) => {
            if auth {
                (Phase::AuthVersion, Action::Read(1))
            } else {
                (Phase::RequestHeader, Action::Read(4))
            }
        },
        _ => failed(SocksError::UnexpectedEvent),
    }
}

fn on_auth_version(event: Event) -> (r: (Phase, Action))
    ensures
        r.0@ == next(Stage::AuthVersion, event@).0,
        r.1@ == next(Stage::AuthVersion, event@).1,
{
    match classify(event, 1) {
        ReadOutcome::Bytes(b) => {
            if b[0] == 1 {
                (Phase::AuthUserLen, Action::Read(1))
            } else {
                failed(SocksError::WrongAuthVersion)
            }
        },
        ReadOutcome::Eof => failed(SocksError::UnexpectedEof),
        ReadOutcome::Other => failed(SocksError::UnexpectedEvent),
    }
}

fn on_auth_user_len(event: Event) -> (r: (Phase, Action))
    ensures
        r.0@ == next(Stage::AuthUserLen, event@).0,
        r.1@ == next(Stage::AuthUserLen, event@).1,
{
    match classify(event, 1) {
        ReadOutcome::Bytes(_) => (Phase::AuthPassLen, Action::Read(1)),
        ReadOutcome::Eof => failed(SocksError::UnexpectedEof),
        ReadOutcome::Other => failed(SocksError::UnexpectedEvent),
    }
}

fn on_auth_pass_len(event: Event) -> (r: (Phase, Action))
    ensures
        r.0@ == next(Stage::AuthPassLen, event@).0,
        r.1@ == next(Stage::AuthPassLen, event@).1,
{
    match classify(event, 1) {
        ReadOutcome::Bytes(_) => (Phase::AuthTrack, Action::Track(String::new())),
        ReadOutcome::Eof => failed(SocksError::UnexpectedEof),
        ReadOutcome::Other => failed(SocksError::UnexpectedEvent),
    }
}

fn on_auth_track(event: Event) -> (r: (Phase, Action))
    ensures
        r.0@ == next(Stage::AuthTrack, event@).0,
        r.1@ == next(Stage::AuthTrack, event@).1,
{
    match event {
        Event::Done => (Phase::AuthReply, Action::Reply(vec![1u8, 0u8])),
        _ => failed(SocksError::UnexpectedEvent),
    }
}

fn on_auth_reply(event: Event) -> (r: (Phase, Action))
    ensures
        r.0@ == next(Stage::AuthReply, event@).0,
        r.1@ == next(Stage::AuthReply, event@).1,
{
    match event {
        Event::Written(_) => (Phase::RequestHeader, Action::Read(4)),
        _ => failed(SocksError::UnexpectedEvent),
    }
}

fn on_request_header(event: Event) -> (r: (Phase, Action))
    ensures
        r.0@ == next(Stage::RequestHeader, event@).0,
        r.1@ == next(Stage::RequestHeader, event@).1,
{
    match classify(event, 4) {
        ReadOutcome::Bytes(b) => {
            let atyp = b[3];
            if atyp == 1 {
                (Phase::Ipv4Address, Action::Read(4))
            } else if atyp == 3 {
                (Phase::HostLen, Action::Read(1))
            } else {
                failed(SocksError::InvalidAddressType)
            }
        },
        ReadOutcome::Eof => failed(SocksError::UnexpectedEof),
        ReadOutcome::Other => failed(SocksError::UnexpectedEvent),
    }
}

fn on_ipv4_address(event: Event) -> (r: (Phase, Action))
    ensures
        r.0@ == next(Stage::Ipv4Address, event@).0,
        r.1@ == next(Stage::Ipv4Address, event@).1,
{
    match classify(event, 4) {
        ReadOutcome::Bytes(b) => {
            let ip = [b[0], b[1], b[2], b[3]];
            assert(ip@ =~= b@);
            (Phase::Ipv4Port { ip }, Action::Read(2))
        },
        ReadOutcome::Eof => failed(SocksError::UnexpectedEof),
        ReadOutcome::Other => failed(SocksError::UnexpectedEvent),
    }
}

fn on_ipv4_port(ip: [u8; 4], event: Event) -> (r: (Phase, Action))
    ensures
        r.0@ == next(Stage::Ipv4Port { ip: ip@ }, event@).0,
        r.1@ == next(Stage::Ipv4Port { ip: ip@ }, event@).1,
{
    match classify(event, 2) {
        ReadOutcome::Bytes(b) => {
            let port = read_u16_be(b.as_slice());
            let addr = SocketAddress::new(IpAddress::from_octets(ip[0], ip[1], ip[2], ip[3]), port);
            (Phase::Connecting, Action::Connect(addr))
        },
        ReadOutcome::Eof => failed(SocksError::UnexpectedEof),
        ReadOutcome::Other => failed(SocksError::UnexpectedEvent),
    }
}

fn on_host_len(event: Event) -> (r: (Phase, Action))
    ensures
        r.0@ == next(Stage::HostLen, event@).0,
        r.1@ == next(Stage::HostLen, event@).1,
{
    match classify(event, 1) {
        ReadOutcome::Bytes(b) => {
            let n = b[0];
            (Phase::HostName { len: n }, Action::Read(n as usize))
        },
        ReadOutcome::Eof => failed(SocksError::UnexpectedEof),
        ReadOutcome::Other => failed(SocksError::UnexpectedEvent),
    }
}

fn on_host_name(len: u8, event: Event) -> (r: (Phase, Action))
    ensures
        r.0@ == next(Stage::HostName { len }, event@).0,
        r.1@ == next(Stage::HostName { len }, event@).1,
{
    match classify(event, len as usize) {
        ReadOutcome::Bytes(b) => {
            let host = match utf8_string(b) {
                Some(s) => s,
                None => String::new(),
            };
            (Phase::HostPort { host }, Action::Read(2))
        },
        ReadOutcome::Eof => failed(SocksError::UnexpectedEof),
        ReadOutcome::Other => failed(SocksError::UnexpectedEvent),
    }
}

fn on_host_port(host: String, event: Event) -> (r: (Phase, Action))
    ensures
        r.0@ == next(Stage::HostPort { host: host@ }, event@).0,
        r.1@ == next(Stage::HostPort { host: host@ }, event@).1,
{
    match classify(event, 2) {
        ReadOutcome::Bytes(b) => {
            let port = read_u16_be(b.as_slice());
            let logged = host.clone();
            (Phase::HostLogged { host, port }, Action::Log(logged))
        },
        ReadOutcome::Eof => failed(SocksError::UnexpectedEof),
        ReadOutcome::Other => failed(SocksError::UnexpectedEvent),
    }
}

fn on_host_logged(host: String, port: u16, event: Event) -> (r: (Phase, Action))
    ensures
        r.0@ == next(Stage::HostLogged { host: host@, port }, event@).0,
        r.1@ == next(Stage::HostLogged { host: host@, port }, event@).1,
{
    match event {
        Event::Done => (Phase::Resolving { port }, Action::Resolve(host)),
        _ => failed(SocksError::UnexpectedEvent),
    }
}

fn on_resolving(port: u16, event: Event) -> (r: (Phase, Action))
    ensures
        r.0@ == next(Stage::Resolving { port }, event@).0,
        r.1@ == next(Stage::Resolving { port }, event@).1,
{
    match event {
        Event::Resolved(Some(a)) => {
            let mut addr = a;
            addr.set_port(port);
            (Phase::Connecting, Action::Connect(addr))
        },
        Event::Resolved(None) => failed(SocksError::EmptyAddress),
        _ => failed(SocksError::UnexpectedEvent),
    }
}

fn on_connecting(event: Event) -> (r: (Phase, Action))
    ensures
        r.0@ == next(Stage::Connecting, event@).0,
        r.1@ == next(Stage::Connecting, event@).1,
{
    match event {
        Event::Connected(ok) => {
            if ok {
                (Phase::ConnectReply, Action::Reply(vec![5u8, 0u8, 0u8, 1u8, 127u8, 0u8, 0u8, 1u8, 0u8, 0u8]))
            } else {
                failed(SocksError::ConnectFailed)
            }
        },
        _ => failed(SocksError::UnexpectedEvent),
    }
}

fn on_connect_reply(event: Event) -> (r: (Phase, Action))
    ensures
        r.0@ == next(Stage::ConnectReply, event@).0,
        r.1@ == next(Stage::ConnectReply, event@).1,
{
    match event {
        Event::Written(ok) => {
            if ok {
                (Phase::Relaying, Action::Relay)
            } else {
                failed(SocksError::ReplyFailed)
            }
        },
        _ => failed(SocksError::UnexpectedEvent),
    }
}

fn on_relaying(event: Event) -> (r: (Phase, Action))
    ensures
        r.0@ == next(Stage::Relaying, event@).0,
        r.1@ == next(Stage::Relaying, event@).1,
{
    match event {
        Event::Done => (Phase::Version, Action::Read(1)),
        _ => failed(SocksError::UnexpectedEvent),
    }
}

} // verus!
