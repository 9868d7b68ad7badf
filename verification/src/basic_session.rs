use vstd::prelude::*;

use crate::address::{IpAddress, SocketAddress};
use crate::session::{
    classify, connect_success, ipv4_destination, read_eof, read_ok, received,
    Action, ActionView, Event, EventView, ReadOutcome, SocksError,
};
use crate::wire::read_u16_be;

verus! {

/// Where a basic session stands: what it waits for.
pub enum BasicStage {
    /// The version byte of a greeting.
    Version,
    /// The number of authentication methods the client offers.
    MethodCount,
    /// The `count` method bytes.
    Methods { count: u8 },
    /// The write of the method selection.
    GreetingReply,
    /// The four header bytes of a request; the address type is not looked at.
    RequestHeader,
    /// The four octets of the IPv4 address.
    Ipv4Address,
    /// The port that follows the IPv4 address `ip`.
    Ipv4Port { ip: Seq<u8> },
    /// The opening of the outbound connection.
    Connecting,
    /// The write of the success reply.
    ConnectReply,
    /// The end of the relay.
    Relaying,
    /// Nothing: the session ended cleanly.
    Finished,
    /// Nothing: the session failed with `error`.
    Failed { error: SocksError },
}

pub open spec fn basic_fail(e: SocksError) -> (BasicStage, ActionView) {
    (BasicStage::Failed { error: e }, ActionView::Fail(e))
}

/// A failed read of `n` bytes: an ended stream or another event.
pub open spec fn basic_read_failure(event: EventView, n: nat) -> (BasicStage, ActionView) {
    if read_eof(event, n) {
        basic_fail(SocksError::UnexpectedEof)
    } else {
        basic_fail(SocksError::UnexpectedEvent)
    }
}

/// The count of methods that a basic session can take: the methods are read
/// as one big-endian number of 1 to 8 bytes.
pub open spec fn method_count_ok(n: u8) -> bool {
    1 <= n <= 8
}

/// The transition of a basic session: a SOCKS5 handshake that offers no
/// authentication (it always answers `05 00`) and always reads an IPv4
/// destination.
pub open spec fn basic_next(stage: BasicStage, event: EventView) -> (BasicStage, ActionView) {
    match stage {
        BasicStage::Version => {
            if read_ok(event, 1) {
                if received(event)[0] == 5 {
                    (BasicStage::MethodCount, ActionView::Read(1))
                } else {
                    (BasicStage::Finished, ActionView::Close)
                }
            } else if read_eof(event, 1) {
                (BasicStage::Finished, ActionView::Close)
            } else {
                basic_fail(SocksError::UnexpectedEvent)
            }
        },
        BasicStage::MethodCount => {
            if read_ok(event, 1) {
                let n = received(event)[0];
                (BasicStage::Methods { count: n }, ActionView::Read(n as nat))
            } else {
                basic_read_failure(event, 1)
            }
        },
        BasicStage::Methods { count } => {
            if read_ok(event, count as nat) {
                (BasicStage::GreetingReply, ActionView::Reply(seq![5u8, 0u8]))
            } else {
                basic_read_failure(event, count as nat)
            }
        },
        BasicStage::GreetingReply => {
            if event is Written {
                (BasicStage::RequestHeader, ActionView::Read(4))
            } else {
                basic_fail(SocksError::UnexpectedEvent)
            }
        },
        BasicStage::RequestHeader => {
            if read_ok(event, 4) {
                (BasicStage::Ipv4Address, ActionView::Read(4))
            } else {
                basic_read_failure(event, 4)
            }
        },
        BasicStage::Ipv4Address => {
            if read_ok(event, 4) {
                (BasicStage::Ipv4Port { ip: received(event) }, ActionView::Read(2))
            } else {
                basic_read_failure(event, 4)
            }
        },
        BasicStage::Ipv4Port { ip } => {
            if read_ok(event, 2) {
                let p = received(event);
                (BasicStage::Connecting, ActionView::Connect(ipv4_destination(ip, p[0], p[1])))
            } else {
                basic_read_failure(event, 2)
            }
        },
        BasicStage::Connecting => {
            match event {
                EventView::Connected(true) => (BasicStage::ConnectReply, ActionView::Reply(connect_success())),
                EventView::Connected(false) => basic_fail(SocksError::ConnectFailed),
                _ => basic_fail(SocksError::UnexpectedEvent),
            }
        },
        BasicStage::ConnectReply => {
            match event {
                EventView::Written(true) => (BasicStage::Relaying, ActionView::Relay),
                EventView::Written(false) => basic_fail(SocksError::ReplyFailed),
                _ => basic_fail(SocksError::UnexpectedEvent),
            }
        },
        BasicStage::Relaying => {
            if event is Done {
                (BasicStage::Version, ActionView::Read(1))
            } else {
                basic_fail(SocksError::UnexpectedEvent)
            }
        },
        BasicStage::Finished => (BasicStage::Finished, ActionView::Close),
        BasicStage::Failed { error } => basic_fail(error),
    }
}

/// The event is one the basic session can take: a method count is 1 to 8.
pub open spec fn basic_accepts(stage: BasicStage, event: EventView) -> bool {
    stage is MethodCount && read_ok(event, 1) ==> method_count_ok(received(event)[0])
}

enum BasicPhase {
    Version,
    MethodCount,
    Methods { count: u8 },
    GreetingReply,
    RequestHeader,
    Ipv4Address,
    Ipv4Port { ip: [u8; 4] },
    Connecting,
    ConnectReply,
    Relaying,
    Finished,
    Failed { error: SocksError },
}

impl View for BasicPhase {
    type V = BasicStage;

    closed spec fn view(&self) -> BasicStage {
        match self {
            BasicPhase::Version => BasicStage::Version,
            BasicPhase::MethodCount => BasicStage::MethodCount,
            BasicPhase::Methods { count } => BasicStage::Methods { count: *count },
            BasicPhase::GreetingReply => BasicStage::GreetingReply,
            BasicPhase::RequestHeader => BasicStage::RequestHeader,
            BasicPhase::Ipv4Address => BasicStage::Ipv4Address,
            BasicPhase::Ipv4Port { ip } => BasicStage::Ipv4Port { ip: ip@ },
            BasicPhase::Connecting => BasicStage::Connecting,
            BasicPhase::ConnectReply => BasicStage::ConnectReply,
            BasicPhase::Relaying => BasicStage::Relaying,
            BasicPhase::Finished => BasicStage::Finished,
            BasicPhase::Failed { error } => BasicStage::Failed { error: *error },
        }
    }
}

/// A SOCKS5 conversation without authentication and with IPv4 destinations
/// only, driven like [`crate::session::SocksSession`]: the driver carries out
/// each [`Action`] and reports its outcome as the next [`Event`].
pub struct BasicSession {
    phase: BasicPhase,
}

impl View for BasicSession {
    type V = BasicStage;

    closed spec fn view(&self) -> BasicStage {
        self.phase@
    }
}

fn basic_failed(e: SocksError) -> (r: (BasicPhase, Action))
    ensures
        r.0@ == basic_fail(e).0,
        r.1@ == basic_fail(e).1,
{
    (BasicPhase::Failed { error: e }, Action::Fail(e))
}

fn basic_read_failed(outcome: ReadOutcome) -> (r: (BasicPhase, Action))
    requires
        !(outcome is Bytes),
    ensures
        outcome is Eof ==> r.0@ == basic_fail(SocksError::UnexpectedEof).0 && r.1@ == basic_fail(
            SocksError::UnexpectedEof,
        ).1,
        outcome is Other ==> r.0@ == basic_fail(SocksError::UnexpectedEvent).0 && r.1@ == basic_fail(
            SocksError::UnexpectedEvent,
        ).1,
{
    match outcome {
        ReadOutcome::Eof => basic_failed(SocksError::UnexpectedEof),
        _ => basic_failed(SocksError::UnexpectedEvent),
    }
}

impl BasicSession {
    /// A session waiting for a client's greeting, with its first action: read
    /// the version byte.
    pub fn new() -> (r: (BasicSession, Action))
        ensures
            r.0@ == BasicStage::Version,
            r.1@ == ActionView::Read(1),
    {
        (BasicSession { phase: BasicPhase::Version }, Action::Read(1))
    }

    /// The session ended, cleanly or not.
    pub fn is_over(&self) -> (r: bool)
        ensures
            r == (self@ is Finished || self@ is Failed),
    {
        match self.phase {
            BasicPhase::Finished => true,
            BasicPhase::Failed { .. } => true,
            _ => false,
        }
    }

    /// The session waits for the count of methods, which must be 1 to 8.
    pub fn expects_method_count(&self) -> (r: bool)
        ensures
            r == self@ is MethodCount,
    {
        match self.phase {
            BasicPhase::MethodCount => true,
            _ => false,
        }
    }

    /// Advances the session by the outcome of its pending action and returns
    /// the next action.
    pub fn step(&mut self, event: Event) -> (action: Action)
        requires
            basic_accepts(old(self)@, event@),
        ensures
            final(self)@ == basic_next(old(self)@, event@).0,
            action@ == basic_next(old(self)@, event@).1,
    {
        let mut phase = BasicPhase::Finished;
        std::mem::swap(&mut phase, &mut self.phase);
        let (p, a) = basic_transition(phase, event);
        self.phase = p;
        a
    }
}

fn basic_transition(phase: BasicPhase, event: Event) -> (r: (BasicPhase, Action))
    ensures
        r.0@ == basic_next(phase@, event@).0,
        r.1@ == basic_next(phase@, event@).1,
{
    match phase {
        BasicPhase::Version => {
            match classify(event, 1) {
                ReadOutcome::Bytes(b) => {
                    if b[0] == 5 {
                        (BasicPhase::MethodCount, Action::Read(1))
                    } else {
                        (BasicPhase::Finished, Action::Close)
                    }
                },
                ReadOutcome::Eof => (BasicPhase::Finished, Action::Close),
                ReadOutcome::Other => basic_failed(SocksError::UnexpectedEvent),
            }
        },
        BasicPhase::MethodCount => {
            match classify(event, 1) {
                ReadOutcome::Bytes(b) => {
                    let n = b[0];
                    (BasicPhase::Methods { count: n }, Action::Read(n as usize))
                },
                o => basic_read_failed(o),
            }
        },
        BasicPhase::Methods { count } => {
            match classify(event, count as usize) {
                ReadOutcome::Bytes(_) => (BasicPhase::GreetingReply, Action::Reply(vec![5u8, 0u8])),
                o => basic_read_failed(o),
            }
        },
        BasicPhase::GreetingReply => {
            match event {
                Event::Written(_) => (BasicPhase::RequestHeader, Action::Read(4)),
                _ => basic_failed(SocksError::UnexpectedEvent),
            }
        },
        BasicPhase::RequestHeader => {
            match classify(event, 4) {
                ReadOutcome::Bytes(_) => (BasicPhase::Ipv4Address, Action::Read(4)),
                o => basic_read_failed(o),
            }
        },
        BasicPhase::Ipv4Address => {
            match classify(event, 4) {
                ReadOutcome::Bytes(b) => {
                    let ip = [b[0], b[1], b[2], b[3]];
                    assert(ip@ =~= b@);
                    (BasicPhase::Ipv4Port { ip }, Action::Read(2))
                },
                o => basic_read_failed(o),
            }
        },
        BasicPhase::Ipv4Port { ip } => {
            match classify(event, 2) {
                ReadOutcome::Bytes(b) => {
                    let port = read_u16_be(b.as_slice());
                    let addr = SocketAddress::new(IpAddress::from_octets(ip[0], ip[1], ip[2], ip[3]), port);
                    (BasicPhase::Connecting, Action::Connect(addr))
                },
                o => basic_read_failed(o),
            }
        },
        BasicPhase::Connecting => {
            match event {
                Event::Connected(ok) => {
                    if ok {
                        (BasicPhase::ConnectReply, Action::Reply(vec![5u8, 0u8, 0u8, 1u8, 127u8, 0u8, 0u8, 1u8, 0u8, 0u8]))
                    } else {
                        basic_failed(SocksError::ConnectFailed)
                    }
                },
                _ => basic_failed(SocksError::UnexpectedEvent),
            }
        },
        BasicPhase::ConnectReply => {
            match event {
                Event::Written(ok) => {
                    if ok {
                        (BasicPhase::Relaying, Action::Relay)
                    } else {
                        basic_failed(SocksError::ReplyFailed)
                    }
                },
                _ => basic_failed(SocksError::UnexpectedEvent),
            }
        },
        BasicPhase::Relaying => {
            match event {
                Event::Done => (BasicPhase::Version, Action::Read(1)),
                _ => basic_failed(SocksError::UnexpectedEvent),
            }
        },
        BasicPhase::Finished => (BasicPhase::Finished, Action::Close),
        BasicPhase::Failed { error } => basic_failed(error),
    }
}

/// The stage reached and the actions asked for when a basic session at
/// `stage` is fed `events` one after the other.
pub open spec fn basic_run(stage: BasicStage, events: Seq<EventView>) -> (BasicStage, Seq<ActionView>)
    decreases events.len(),
{
    if events.len() == 0 {
        (stage, Seq::empty())
    } else {
        let first = basic_next(stage, events[0]);
        let rest = basic_run(first.0, events.drop_first());
        (rest.0, seq![first.1] + rest.1)
    }
}

/// Whatever methods the client offers and whatever address type its request
/// names, a basic session answers `05 00` and connects to the IPv4 address and
/// port that follow the request header.
pub proof fn lemma_basic_request_connects(
    methods: Seq<u8>,
    written: bool,
    header: Seq<u8>,
    ip: Seq<u8>,
    port: Seq<u8>,
)
    requires
        1 <= methods.len() <= 8,
        header.len() == 4,
        ip.len() == 4,
        port.len() == 2,
    ensures
        ({
            let events = seq![
                EventView::Received(seq![5u8]),
                EventView::Received(seq![methods.len() as u8]),
                EventView::Received(methods),
                EventView::Written(written),
                EventView::Received(header),
                EventView::Received(ip),
                EventView::Received(port),
            ];
            &&& basic_run(BasicStage::Version, events).0 == BasicStage::Connecting
            &&& basic_run(BasicStage::Version, events).1 =~= seq![
                ActionView::Read(1),
                ActionView::Read(methods.len()),
                ActionView::Reply(seq![5u8, 0u8]),
                ActionView::Read(4),
                ActionView::Read(4),
                ActionView::Read(2),
                ActionView::Connect(ipv4_destination(ip, port[0], port[1])),
            ]
        }),
{
    let events = seq![
        EventView::Received(seq![5u8]),
        EventView::Received(seq![methods.len() as u8]),
        EventView::Received(methods),
        EventView::Written(written),
        EventView::Received(header),
        EventView::Received(ip),
        EventView::Received(port),
    ];
    reveal_with_fuel(basic_run, 8);
    let e1 = events.drop_first();
    let e2 = e1.drop_first();
    let e3 = e2.drop_first();
    let e4 = e3.drop_first();
    let e5 = e4.drop_first();
    let e6 = e5.drop_first();
    assert(e1 =~= seq![
        EventView::Received(seq![methods.len() as u8]),
        EventView::Received(methods),
        EventView::Written(written),
        EventView::Received(header),
        EventView::Received(ip),
        EventView::Received(port),
    ]);
    assert(e2 =~= seq![
        EventView::Received(methods),
        EventView::Written(written),
        EventView::Received(header),
        EventView::Received(ip),
        EventView::Received(port),
    ]);
    assert(e3 =~= seq![
        EventView::Written(written),
        EventView::Received(header),
        EventView::Received(ip),
        EventView::Received(port),
    ]);
    assert(e4 =~= seq![EventView::Received(header), EventView::Received(ip), EventView::Received(port)]);
    assert(e5 =~= seq![EventView::Received(ip), EventView::Received(port)]);
    assert(e6 =~= seq![EventView::Received(port)]);
    assert(e6.drop_first() =~= Seq::<EventView>::empty());
}

} // verus!
