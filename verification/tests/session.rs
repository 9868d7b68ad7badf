use rocks::address::{IpAddress, SocketAddress};
use rocks::session::{Action, Event, SocksError, SocksSession};

fn feed(s: &mut SocksSession, bytes: &[u8]) -> Action {
    s.step(Event::Received(bytes.to_vec()))
}

fn greeted(methods: &[u8]) -> (SocksSession, Action) {
    let (mut s, a) = SocksSession::new();
    assert_eq!(a, Action::Read(1));
    assert_eq!(feed(&mut s, &[5]), Action::Read(1));
    assert_eq!(feed(&mut s, &[methods.len() as u8]), Action::Read(methods.len()));
    let a = feed(&mut s, methods);
    (s, a)
}

#[test]
fn no_auth_ipv4_connect_and_relay() {
    let (mut s, a) = greeted(&[0, 1]);
    assert_eq!(a, Action::Reply(vec![5, 0]));
    assert_eq!(s.step(Event::Written(true)), Action::Read(4));
    assert_eq!(feed(&mut s, &[5, 1, 0, 1]), Action::Read(4));
    assert_eq!(feed(&mut s, &[192, 168, 1, 20]), Action::Read(2));
    let a = feed(&mut s, &[0x1f, 0x90]);
    assert_eq!(a, Action::Connect(SocketAddress::new(IpAddress::V4(0xc0a8_0114), 8080)));
    assert_eq!(s.step(Event::Connected(true)), Action::Reply(vec![5, 0, 0, 1, 127, 0, 0, 1, 0, 0]));
    assert_eq!(s.step(Event::Written(true)), Action::Relay);
    assert_eq!(s.step(Event::Done), Action::Read(1));
    assert!(!s.is_over());
    assert_eq!(s.step(Event::Closed), Action::Close);
    assert!(s.is_over());
    assert_eq!(s.step(Event::Done), Action::Close);
}

#[test]
fn port_is_big_endian() {
    let (mut s, _) = greeted(&[0]);
    s.step(Event::Written(false));
    feed(&mut s, &[5, 1, 0, 1]);
    feed(&mut s, &[10, 0, 0, 1]);
    assert_eq!(feed(&mut s, &[0x01, 0x02]), Action::Connect(SocketAddress::new(IpAddress::V4(0x0a00_0001), 0x0102)));
}

#[test]
fn username_password_offered() {
    let (mut s, a) = greeted(&[0, 2]);
    assert_eq!(a, Action::Reply(vec![5, 2]));
    assert_eq!(s.step(Event::Written(true)), Action::Read(1));
    assert_eq!(feed(&mut s, &[1]), Action::Read(1));
    assert_eq!(feed(&mut s, &[5]), Action::Read(1));
    assert_eq!(feed(&mut s, &[8]), Action::Track(String::new()));
    assert_eq!(s.step(Event::Done), Action::Reply(vec![1, 0]));
    assert_eq!(s.step(Event::Written(true)), Action::Read(4));
}

#[test]
fn wrong_auth_version_fails() {
    let (mut s, _) = greeted(&[2]);
    s.step(Event::Written(true));
    assert_eq!(feed(&mut s, &[5]), Action::Fail(SocksError::WrongAuthVersion));
    assert_eq!(feed(&mut s, &[1]), Action::Fail(SocksError::WrongAuthVersion));
}

#[test]
fn domain_request_resolves_and_keeps_port() {
    let (mut s, _) = greeted(&[]);
    s.step(Event::Written(true));
    assert_eq!(feed(&mut s, &[5, 1, 0, 3]), Action::Read(1));
    assert_eq!(feed(&mut s, &[11]), Action::Read(11));
    assert_eq!(feed(&mut s, b"example.org"), Action::Read(2));
    assert_eq!(feed(&mut s, &[0, 80]), Action::Log("example.org".to_string()));
    assert_eq!(s.step(Event::Done), Action::Resolve("example.org".to_string()));
    let found = SocketAddress::new_v6(1, 0, 7, 2);
    assert_eq!(s.step(Event::Resolved(Some(found))), Action::Connect(SocketAddress::new_v6(1, 80, 7, 2)));
}

#[test]
fn unresolved_domain_fails() {
    let (mut s, _) = greeted(&[0]);
    s.step(Event::Written(true));
    feed(&mut s, &[5, 1, 0, 3]);
    feed(&mut s, &[1]);
    feed(&mut s, b"x");
    feed(&mut s, &[0, 1]);
    s.step(Event::Done);
    assert_eq!(s.step(Event::Resolved(None)), Action::Fail(SocksError::EmptyAddress));
    assert!(s.is_over());
}

#[test]
fn invalid_utf8_name_is_empty() {
    let (mut s, _) = greeted(&[0]);
    s.step(Event::Written(true));
    feed(&mut s, &[5, 1, 0, 3]);
    feed(&mut s, &[2]);
    feed(&mut s, &[0xff, 0xfe]);
    assert_eq!(feed(&mut s, &[0, 1]), Action::Log(String::new()));
}

#[test]
fn unknown_address_type_fails() {
    let (mut s, _) = greeted(&[0]);
    s.step(Event::Written(true));
    assert_eq!(feed(&mut s, &[5, 1, 0, 4]), Action::Fail(SocksError::InvalidAddressType));
}

#[test]
fn other_version_closes() {
    let (mut s, _) = SocksSession::new();
    assert_eq!(feed(&mut s, &[4]), Action::Close);
    assert!(s.is_over());
}

#[test]
fn stream_end_mid_message_fails() {
    let (mut s, _) = greeted(&[0]);
    s.step(Event::Written(true));
    assert_eq!(s.step(Event::Closed), Action::Fail(SocksError::UnexpectedEof));
}

#[test]
fn short_read_is_end_of_stream() {
    let (mut s, _) = SocksSession::new();
    feed(&mut s, &[5]);
    feed(&mut s, &[3]);
    assert_eq!(feed(&mut s, &[0]), Action::Fail(SocksError::UnexpectedEof));
}

#[test]
fn unexpected_event_fails() {
    let (mut s, _) = SocksSession::new();
    assert_eq!(s.step(Event::Done), Action::Fail(SocksError::UnexpectedEvent));
}

#[test]
fn connect_failures() {
    let (mut s, _) = greeted(&[0]);
    s.step(Event::Written(true));
    feed(&mut s, &[5, 1, 0, 1]);
    feed(&mut s, &[1, 2, 3, 4]);
    feed(&mut s, &[0, 1]);
    assert_eq!(s.step(Event::Connected(false)), Action::Fail(SocksError::ConnectFailed));

    let (mut s, _) = greeted(&[0]);
    s.step(Event::Written(true));
    feed(&mut s, &[5, 1, 0, 1]);
    feed(&mut s, &[1, 2, 3, 4]);
    feed(&mut s, &[0, 1]);
    s.step(Event::Connected(true));
    assert_eq!(s.step(Event::Written(false)), Action::Fail(SocksError::ReplyFailed));
}
