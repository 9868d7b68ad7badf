use vstd::prelude::*;

verus! {

/// An IP address, held as the number its octets spell in network order.
#[derive(Clone, Copy, Debug, PartialEq, Eq)]
pub enum IpAddress {
    V4(u32),
    V6(u128),
}

/// A socket address: an IP address and a port, with the flow label and the
/// scope id that an IPv6 socket address carries (both 0 for IPv4).
#[derive(Clone, Copy, Debug, PartialEq, Eq)]
pub struct SocketAddress {
    pub ip: IpAddress,
    pub port: u16,
    pub flowinfo: u32,
    pub scope_id: u32,
}

/// The number that the four octets `a.b.c.d` of an IPv4 address spell.
pub open spec fn ipv4_value(a: u8, b: u8, c: u8, d: u8) -> int {
    a * 0x100_0000 + b * 0x1_0000 + c * 0x100 + d
}

impl IpAddress {
    /// The IPv4 address with octets `a.b.c.d`.
    pub fn from_octets(a: u8, b: u8, c: u8, d: u8) -> (ip: IpAddress)
        ensures
            ip == IpAddress::V4(ipv4_value(a, b, c, d) as u32),
    {
        let v: u32 = (a as u32) * 0x100_0000 + (b as u32) * 0x1_0000 + (c as u32) * 0x100 + (d as u32);
        IpAddress::V4(v)
    }
}

impl SocketAddress {
    /// A socket address from an IP address and a port, with flow label and
    /// scope id 0.
    pub fn new(ip: IpAddress, port: u16) -> (addr: SocketAddress)
        ensures
            addr == (SocketAddress { ip, port, flowinfo: 0, scope_id: 0 }),
    {
        SocketAddress { ip, port, flowinfo: 0, scope_id: 0 }
    }

    /// An IPv6 socket address with its flow label and scope id.
    pub fn new_v6(ip: u128, port: u16, flowinfo: u32, scope_id: u32) -> (addr: SocketAddress)
        ensures
            addr == (SocketAddress { ip: IpAddress::V6(ip), port, flowinfo, scope_id }),
    {
        SocketAddress { ip: IpAddress::V6(ip), port, flowinfo, scope_id }
    }

    /// Replaces the port, keeping everything else.
    pub fn set_port(&mut self, port: u16)
        ensures
            *final(self) == (SocketAddress { port, ..*old(self) }),
    {
        self.port = port;
    }
}

/// The IPv4 number of `a.b.c.d` holds the octets in the order given, the
/// first one most significant: it fits in 32 bits and each octet is read
/// back from its own byte of the number.
pub proof fn lemma_ipv4_value_octets(a: u8, b: u8, c: u8, d: u8)
    ensures
        0 <= ipv4_value(a, b, c, d) < 0x1_0000_0000,
        ipv4_value(a, b, c, d) / 0x100_0000 == a,
        (ipv4_value(a, b, c, d) / 0x1_0000) % 0x100 == b,
        (ipv4_value(a, b, c, d) / 0x100) % 0x100 == c,
        ipv4_value(a, b, c, d) % 0x100 == d,
{
    let v = ipv4_value(a, b, c, d);
    assert(v == a * 0x100_0000 + b * 0x1_0000 + c * 0x100 + d);
    assert(0 <= v < 0x1_0000_0000) by (nonlinear_arith)
        requires
            v == a * 0x100_0000 + b * 0x1_0000 + c * 0x100 + d,
            0 <= a < 0x100,
            0 <= b < 0x100,
            0 <= c < 0x100,
            0 <= d < 0x100,
    ;
    assert(v / 0x100_0000 == a) by (nonlinear_arith)
        requires
            v == a * 0x100_0000 + b * 0x1_0000 + c * 0x100 + d,
            0 <= b < 0x100,
            0 <= c < 0x100,
            0 <= d < 0x100,
    ;
    assert((v / 0x1_0000) % 0x100 == b) by (nonlinear_arith)
        requires
            v == a * 0x100_0000 + b * 0x1_0000 + c * 0x100 + d,
            0 <= a < 0x100,
            0 <= b < 0x100,
            0 <= c < 0x100,
            0 <= d < 0x100,
    ;
    assert((v / 0x100) % 0x100 == c) by (nonlinear_arith)
        requires
            v == a * 0x100_0000 + b * 0x1_0000 + c * 0x100 + d,
            0 <= a < 0x100,
            0 <= b < 0x100,
            0 <= c < 0x100,
            0 <= d < 0x100,
    ;
    assert(v % 0x100 == d) by (nonlinear_arith)
        requires
            v == a * 0x100_0000 + b * 0x1_0000 + c * 0x100 + d,
            0 <= a < 0x100,
            0 <= b < 0x100,
            0 <= c < 0x100,
            0 <= d < 0x100,
    ;
}

/// Different octets, or the same octets in another order, give different
/// IPv4 addresses.
pub proof fn lemma_ipv4_value_injective(a: u8, b: u8, c: u8, d: u8, e: u8, f: u8, g: u8, h: u8)
    requires
        ipv4_value(a, b, c, d) == ipv4_value(e, f, g, h),
    ensures
        a == e && b == f && c == g && d == h,
{
    lemma_ipv4_value_octets(a, b, c, d);
    lemma_ipv4_value_octets(e, f, g, h);
}

} // verus!
