use rocks::address::{IpAddress, SocketAddress};
use rocks::dns_cache::{DnsDecision, DnsStore};

#[test]
fn unknown_name_is_not_cached() {
    let store = DnsStore::new();
    assert_eq!(store.cached("example.org"), None);
}

#[test]
fn recorded_outcome_is_found() {
    let mut store = DnsStore::new();
    let a = SocketAddress::new(IpAddress::V4(0x5db8_d822), 0);
    assert_eq!(store.record("example.org".to_string(), Some(a)), Some(a));
    assert_eq!(store.cached("example.org"), Some(Some(a)));
    assert_eq!(store.cached("example.com"), None);
}

#[test]
fn first_outcome_stays() {
    let mut store = DnsStore::new();
    let a = SocketAddress::new(IpAddress::V4(1), 0);
    let b = SocketAddress::new(IpAddress::V6(2), 0);
    assert_eq!(store.record("h".to_string(), None), None);
    assert_eq!(store.record("h".to_string(), Some(a)), None);
    assert_eq!(store.cached("h"), Some(None));
    assert_eq!(store.record("k".to_string(), Some(b)), Some(b));
    assert_eq!(store.record("k".to_string(), Some(a)), Some(b));
}

#[test]
fn each_name_is_looked_up_once() {
    let mut store = DnsStore::new();
    let a = SocketAddress::new(IpAddress::V4(7), 0);
    assert_eq!(store.decide("n"), DnsDecision::Lookup);
    assert_eq!(store.record("n".to_string(), Some(a)), Some(a));
    assert_eq!(store.decide("n"), DnsDecision::Answer(Some(a)));
    assert_eq!(store.decide("m"), DnsDecision::Lookup);
    assert_eq!(store.record("m".to_string(), None), None);
    assert_eq!(store.decide("m"), DnsDecision::Answer(None));
    assert_eq!(store.decide("n"), DnsDecision::Answer(Some(a)));
}
