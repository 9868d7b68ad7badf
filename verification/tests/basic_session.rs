use rocks::address::{IpAddress, SocketAddress};
use rocks::basic_session::BasicSession;
use rocks::session::{Action, Event, SocksError};

fn feed(s: &mut BasicSession, bytes: &[u8]) -> Action {
    s.step(Event::Received(bytes.to_vec()))
}

#[test]
fn basic_always_answers_no_auth_and_reads_ipv4() {
    let (mut s, a) = BasicSession::new();
    assert_eq!(a, Action::Read(1));
    assert_eq!(feed(&mut s, &[5]), Action::Read(1));
    assert_eq!(feed(&mut s, &[2]), Action::Read(2));
    assert_eq!(feed(&mut s, &[2, 0]), Action::Reply(vec![5, 0]));
    assert_eq!(s.step(Event::Written(false)), Action::Read(4));
    assert_eq!(feed(&mut s, &[5, 1, 0, 3]), Action::Read(4));
    assert_eq!(feed(&mut s, &[8, 8, 4, 4]), Action::Read(2));
    assert_eq!(feed(&mut s, &[0, 53]), Action::Connect(SocketAddress::new(IpAddress::V4(0x0808_0404), 53)));
    assert_eq!(s.step(Event::Connected(true)), Action::Reply(vec![5, 0, 0, 1, 127, 0, 0, 1, 0, 0]));
    assert_eq!(s.step(Event::Written(true)), Action::Relay);
    assert_eq!(s.step(Event::Done), Action::Read(1));
    assert_eq!(s.step(Event::Closed), Action::Close);
    assert!(s.is_over());
}

#[test]
fn basic_other_version_closes() {
    let (mut s, _) = BasicSession::new();
    assert_eq!(feed(&mut s, &[4]), Action::Close);
    assert!(s.is_over());
}

#[test]
fn basic_connect_error() {
    let (mut s, _) = BasicSession::new();
    feed(&mut s, &[5]);
    feed(&mut s, &[1]);
    feed(&mut s, &[0]);
    s.step(Event::Written(true));
    feed(&mut s, &[5, 1, 0, 1]);
    feed(&mut s, &[1, 1, 1, 1]);
    feed(&mut s, &[0, 1]);
    assert_eq!(s.step(Event::Connected(false)), Action::Fail(SocksError::ConnectFailed));
    assert_eq!(s.step(Event::Closed), Action::Fail(SocksError::ConnectFailed));
}

#[test]
fn basic_stream_end_mid_request() {
    let (mut s, _) = BasicSession::new();
    feed(&mut s, &[5]);
    assert_eq!(s.step(Event::Closed), Action::Fail(SocksError::UnexpectedEof));
}
