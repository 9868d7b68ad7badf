use vstd::prelude::*;

use crate::address::{lemma_ipv4_value_octets, IpAddress, SocketAddress};
use vstd::utf8::{decode_utf8, decode_utf8_encode_utf8, encode_utf8, valid_utf8};
use crate::session::{
    auth_success, connect_success, fail, host_name, ipv4_destination, method_selection, next, ActionView,
    EventView, SocksError, Stage,
};
use crate::wire::{be_u16, lemma_be_u16};

verus! {

/// The stage reached and the actions asked for when a session at `stage`
/// is fed `events` one after the other.
pub open spec fn run(stage: Stage, events: Seq<EventView>) -> (Stage, Seq<ActionView>)
    decreases events.len(),
{
    if events.len() == 0 {
        (stage, Seq::empty())
    } else {
        let first = next(stage, events[0]);
        let rest = run(first.0, events.drop_first());
        (rest.0, seq![first.1] + rest.1)
    }
}

/// The events that report a client's greeting offering `methods`.
pub open spec fn greeting(methods: Seq<u8>) -> Seq<EventView> {
    seq![
        EventView::Received(seq![5u8]),
        EventView::Received(seq![methods.len() as u8]),
        EventView::Received(methods),
    ]
}

/// The stages that wait for bytes from the client.
pub open spec fn awaits_bytes(stage: Stage) -> bool {
    match stage {
        Stage::Version | Stage::MethodCount | Stage::Methods { .. } | Stage::AuthVersion
        | Stage::AuthUserLen | Stage::AuthPassLen | Stage::RequestHeader | Stage::Ipv4Address
        | Stage::Ipv4Port { .. } | Stage::HostLen | Stage::HostName { .. }
        | Stage::HostPort { .. } => true,
        _ => false,
    }
}

/// Feeding two runs of events one after the other is feeding their concatenation.
pub proof fn lemma_run_concat(stage: Stage, a: Seq<EventView>, b: Seq<EventView>)
    ensures
        run(stage, a + b).0 == run(run(stage, a).0, b).0,
        run(stage, a + b).1 =~= run(stage, a).1 + run(run(stage, a).0, b).1,
    decreases a.len(),
{
    if a.len() == 0 {
        assert(a + b =~= b);
    } else {
        let first = next(stage, a[0]);
        assert((a + b).drop_first() =~= a.drop_first() + b);
        lemma_run_concat(first.0, a.drop_first(), b);
    }
}

/// A greeting whose version is not 5, or a stream that ends before any
/// greeting, closes the session without any reply.
pub proof fn lemma_other_version_closes(v: u8)
    requires
        v != 5,
    ensures
        next(Stage::Version, EventView::Received(seq![v])) == (Stage::Finished, ActionView::Close),
        next(Stage::Version, EventView::Closed) == (Stage::Finished, ActionView::Close),
{
}

/// A SOCKS5 greeting is answered with the method selection: username/password
/// (`05 02`) exactly when the client offers method 2, no authentication
/// (`05 00`) otherwise.
pub proof fn lemma_greeting(methods: Seq<u8>)
    requires
        methods.len() <= 255,
    ensures
        run(Stage::Version, greeting(methods)).0 == (Stage::GreetingReply {
            auth: methods.contains(2u8),
        }),
        run(Stage::Version, greeting(methods)).1 =~= seq![
            ActionView::Read(1),
            ActionView::Read(methods.len()),
            ActionView::Reply(method_selection(methods.contains(2u8))),
        ],
{
    reveal_with_fuel(run, 4);
    let g = greeting(methods);
    assert(g.drop_first().drop_first().drop_first() =~= Seq::<EventView>::empty());
    assert(g.drop_first()[0] == EventView::Received(seq![methods.len() as u8]));
    assert(g.drop_first().drop_first()[0] == EventView::Received(methods));
}

/// A client that offers no username/password and requests an IPv4 address
/// gets `05 00` and then a connection to exactly that address and port (the
/// port in network byte order), whatever the other header bytes hold.
pub proof fn lemma_ipv4_request_connects(
    methods: Seq<u8>,
    written: bool,
    header: Seq<u8>,
    ip: Seq<u8>,
    port: Seq<u8>,
)
    requires
        methods.len() <= 255,
        !methods.contains(2u8),
        header.len() == 4,
        header[3] == 1,
        ip.len() == 4,
        port.len() == 2,
    ensures
        ({
            let events = greeting(methods) + seq![
                EventView::Written(written),
                EventView::Received(header),
                EventView::Received(ip),
                EventView::Received(port),
            ];
            &&& run(Stage::Version, events).0 == Stage::Connecting
            &&& run(Stage::Version, events).1 =~= seq![
                ActionView::Read(1),
                ActionView::Read(methods.len()),
                ActionView::Reply(seq![5u8, 0u8]),
                ActionView::Read(4),
                ActionView::Read(4),
                ActionView::Read(2),
                ActionView::Connect(ipv4_destination(ip, port[0], port[1])),
            ]
        }),
{
    let rest = seq![
        EventView::Written(written),
        EventView::Received(header),
        EventView::Received(ip),
        EventView::Received(port),
    ];
    lemma_greeting(methods);
    lemma_run_concat(Stage::Version, greeting(methods), rest);
    reveal_with_fuel(run, 5);
    assert(rest.drop_first() =~= seq![
        EventView::Received(header),
        EventView::Received(ip),
        EventView::Received(port),
    ]);
    assert(rest.drop_first().drop_first() =~= seq![
        EventView::Received(ip),
        EventView::Received(port),
    ]);
    assert(rest.drop_first().drop_first().drop_first() =~= seq![EventView::Received(port)]);
    assert(rest.drop_first().drop_first().drop_first().drop_first() =~= Seq::<EventView>::empty());
}

/// A request for a domain name logs the name, asks for its resolution, and
/// connects to the first address found with the requested port; when nothing
/// is found the session fails with `EmptyAddress`; the address keeps
/// everything it was found with but the port. A name that is not valid
/// UTF-8 is taken as the empty name.
pub proof fn lemma_domain_request(
    header: Seq<u8>,
    name: Seq<u8>,
    port: Seq<u8>,
    resolved: Option<SocketAddress>,
)
    requires
        header.len() == 4,
        header[3] == 3,
        name.len() <= 255,
        port.len() == 2,
    ensures
        ({
            let events = seq![
                EventView::Received(header),
                EventView::Received(seq![name.len() as u8]),
                EventView::Received(name),
                EventView::Received(port),
                EventView::Done,
                EventView::Resolved(resolved),
            ];
            let host = host_name(name);
            let last = match resolved {
                Some(a) => ActionView::Connect(SocketAddress { port: be_u16(port[0], port[1]), ..a }),
                None => ActionView::Fail(SocksError::EmptyAddress),
            };
            &&& run(Stage::RequestHeader, events).0 == match resolved {
                Some(_) => Stage::Connecting,
                None => Stage::Failed { error: SocksError::EmptyAddress },
            }
            &&& run(Stage::RequestHeader, events).1 =~= seq![
                ActionView::Read(1),
                ActionView::Read(name.len()),
                ActionView::Read(2),
                ActionView::Log(host),
                ActionView::Resolve(host),
                last,
            ]
        }),
{
    let events = seq![
        EventView::Received(header),
        EventView::Received(seq![name.len() as u8]),
        EventView::Received(name),
        EventView::Received(port),
        EventView::Done,
        EventView::Resolved(resolved),
    ];
    reveal_with_fuel(run, 7);
    let e1 = events.drop_first();
    let e2 = e1.drop_first();
    let e3 = e2.drop_first();
    let e4 = e3.drop_first();
    let e5 = e4.drop_first();
    assert(e1 =~= seq![
        EventView::Received(seq![name.len() as u8]),
        EventView::Received(name),
        EventView::Received(port),
        EventView::Done,
        EventView::Resolved(resolved),
    ]);
    assert(e2 =~= seq![
        EventView::Received(name),
        EventView::Received(port),
        EventView::Done,
        EventView::Resolved(resolved),
    ]);
    assert(e3 =~= seq![EventView::Received(port), EventView::Done, EventView::Resolved(resolved)]);
    assert(e4 =~= seq![EventView::Done, EventView::Resolved(resolved)]);
    assert(e5 =~= seq![EventView::Resolved(resolved)]);
    assert(e5.drop_first() =~= Seq::<EventView>::empty());
}

/// A request whose address type is neither IPv4 (1) nor a domain name (3)
/// fails with `InvalidAddressType` and gets no reply.
pub proof fn lemma_unknown_address_type(header: Seq<u8>)
    requires
        header.len() == 4,
        header[3] != 1,
        header[3] != 3,
    ensures
        next(Stage::RequestHeader, EventView::Received(header)) == fail(SocksError::InvalidAddressType),
{
}

/// When the client offered username/password, the sub-negotiation reads its
/// version, the username length and the password length (the name bytes
/// themselves are not read), hands the empty username to the trackers,
/// answers `01 00` and goes on to the request.
pub proof fn lemma_auth_subnegotiation(w1: bool, user_len: u8, pass_len: u8, w2: bool)
    ensures
        ({
            let events = seq![
                EventView::Written(w1),
                EventView::Received(seq![1u8]),
                EventView::Received(seq![user_len]),
                EventView::Received(seq![pass_len]),
                EventView::Done,
                EventView::Written(w2),
            ];
            &&& run(Stage::GreetingReply { auth: true }, events).0 == Stage::RequestHeader
            &&& run(Stage::GreetingReply { auth: true }, events).1 =~= seq![
                ActionView::Read(1),
                ActionView::Read(1),
                ActionView::Read(1),
                ActionView::Track(Seq::empty()),
                ActionView::Reply(auth_success()),
                ActionView::Read(4),
            ]
        }),
{
    let events = seq![
        EventView::Written(w1),
        EventView::Received(seq![1u8]),
        EventView::Received(seq![user_len]),
        EventView::Received(seq![pass_len]),
        EventView::Done,
        EventView::Written(w2),
    ];
    reveal_with_fuel(run, 7);
    let e1 = events.drop_first();
    let e2 = e1.drop_first();
    let e3 = e2.drop_first();
    let e4 = e3.drop_first();
    let e5 = e4.drop_first();
    assert(e1 =~= seq![
        EventView::Received(seq![1u8]),
        EventView::Received(seq![user_len]),
        EventView::Received(seq![pass_len]),
        EventView::Done,
        EventView::Written(w2),
    ]);
    assert(e2 =~= seq![
        EventView::Received(seq![user_len]),
        EventView::Received(seq![pass_len]),
        EventView::Done,
        EventView::Written(w2),
    ]);
    assert(e3 =~= seq![EventView::Received(seq![pass_len]), EventView::Done, EventView::Written(w2)]);
    assert(e4 =~= seq![EventView::Done, EventView::Written(w2)]);
    assert(e5 =~= seq![EventView::Written(w2)]);
    assert(e5.drop_first() =~= Seq::<EventView>::empty());
}

/// A sub-negotiation version other than 1 fails the session with
/// `WrongAuthVersion`.
pub proof fn lemma_auth_wrong_version(v: u8)
    requires
        v != 1,
    ensures
        next(Stage::AuthVersion, EventView::Received(seq![v])) == fail(SocksError::WrongAuthVersion),
{
}

/// Once the outbound connection is open the client gets the success reply,
/// the traffic is relayed, and after the relay the session reads a new
/// greeting; a connection that cannot be opened fails the session.
pub proof fn lemma_connect_relay_loop()
    ensures
        ({
            let events = seq![EventView::Connected(true), EventView::Written(true), EventView::Done];
            &&& run(Stage::Connecting, events).0 == Stage::Version
            &&& run(Stage::Connecting, events).1 =~= seq![
                ActionView::Reply(connect_success()),
                ActionView::Relay,
                ActionView::Read(1),
            ]
        }),
        next(Stage::Connecting, EventView::Connected(false)) == fail(SocksError::ConnectFailed),
        next(Stage::ConnectReply, EventView::Written(false)) == fail(SocksError::ReplyFailed),
{
    let events = seq![EventView::Connected(true), EventView::Written(true), EventView::Done];
    reveal_with_fuel(run, 4);
    assert(events.drop_first() =~= seq![EventView::Written(true), EventView::Done]);
    assert(events.drop_first().drop_first() =~= seq![EventView::Done]);
    assert(events.drop_first().drop_first().drop_first() =~= Seq::<EventView>::empty());
}

/// A client that goes away in the middle of a message fails the session with
/// `UnexpectedEof`; only between messages (waiting for a greeting) does it end
/// the session cleanly.
pub proof fn lemma_stream_end(stage: Stage)
    requires
        awaits_bytes(stage),
    ensures
        stage is Version ==> next(stage, EventView::Closed) == (Stage::Finished, ActionView::Close),
        !(stage is Version) ==> next(stage, EventView::Closed) == fail(SocksError::UnexpectedEof),
{
}

/// A session that has ended stays ended: whatever is reported, a finished
/// session only closes and a failed one only repeats its failure.
pub proof fn lemma_end_is_final(stage: Stage, events: Seq<EventView>)
    requires
        stage is Finished || stage is Failed,
    ensures
        run(stage, events).0 == stage,
        stage is Finished ==> run(stage, events).1 =~= Seq::new(events.len(), |i: int| ActionView::Close),
        stage matches Stage::Failed { error } ==> run(stage, events).1 =~= Seq::new(
            events.len(),
            |i: int| ActionView::Fail(error),
        ),
    decreases events.len(),
{
    if events.len() > 0 {
        lemma_end_is_final(stage, events.drop_first());
    }
}

/// A domain name that is valid UTF-8 is taken whole: the host name is its
/// decoding, and encoding the host name gives back exactly the bytes
/// received. A name that is not valid UTF-8 is taken as the empty name.
pub proof fn lemma_host_name_whole(name: Seq<u8>)
    ensures
        valid_utf8(name) ==> host_name(name) == decode_utf8(name),
        valid_utf8(name) ==> encode_utf8(host_name(name)) == name,
        !valid_utf8(name) ==> host_name(name) == Seq::<char>::empty(),
{
    if valid_utf8(name) {
        decode_utf8_encode_utf8(name);
    }
}

/// The IPv4 destination of a request is the four octets received, in order,
/// with the port read in network order from the two port bytes.
pub proof fn lemma_ipv4_destination(ip: Seq<u8>, hi: u8, lo: u8)
    requires
        ip.len() == 4,
    ensures
        ipv4_destination(ip, hi, lo).port as int == hi * 256 + lo,
        ipv4_destination(ip, hi, lo).flowinfo == 0,
        ipv4_destination(ip, hi, lo).scope_id == 0,
        ipv4_destination(ip, hi, lo).ip matches IpAddress::V4(v) && v / 0x100_0000 == ip[0] && (v / 0x1_0000)
            % 0x100 == ip[1] && (v / 0x100) % 0x100 == ip[2] && v % 0x100 == ip[3],
{
    lemma_be_u16(hi, lo);
    lemma_ipv4_value_octets(ip[0], ip[1], ip[2], ip[3]);
}

/// The bytes of the replies: `05 02` selects username/password, `05 00`
/// selects no authentication, `01 00` accepts the credentials, and the
/// success reply to a request is `05 00 00 01 7f 00 00 01 00 00`.
pub proof fn lemma_reply_bytes()
    ensures
        method_selection(true) == seq![5u8, 2u8],
        method_selection(false) == seq![5u8, 0u8],
        auth_success() == seq![1u8, 0u8],
        connect_success() == seq![5u8, 0u8, 0u8, 1u8, 127u8, 0u8, 0u8, 1u8, 0u8, 0u8],
{
}

} // verus!
