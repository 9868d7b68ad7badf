use rocks::address::{IpAddress, SocketAddress};

#[test]
fn octets_in_network_order() {
    assert_eq!(IpAddress::from_octets(127, 0, 0, 1), IpAddress::V4(0x7f00_0001));
    assert_eq!(IpAddress::from_octets(255, 255, 255, 255), IpAddress::V4(u32::MAX));
}

#[test]
fn set_port_keeps_ip() {
    let mut a = SocketAddress::new(IpAddress::V6(7), 0);
    a.set_port(443);
    assert_eq!(a, SocketAddress { ip: IpAddress::V6(7), port: 443, flowinfo: 0, scope_id: 0 });
    let mut b = SocketAddress::new_v6(0xfe80 << 112, 0, 5, 3);
    b.set_port(22);
    assert_eq!(b, SocketAddress { ip: IpAddress::V6(0xfe80 << 112), port: 22, flowinfo: 5, scope_id: 3 });
}
