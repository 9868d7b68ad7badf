use byteorder::ByteOrder;
use vstd::prelude::*;
use vstd::utf8::{decode_utf8, valid_utf8};

verus! {

/// The value of two bytes read as a big-endian (network order) 16-bit number.
pub open spec fn be_u16(hi: u8, lo: u8) -> u16 {
    (hi * 0x100 + lo) as u16
}

/// Reads a big-endian `u16` from the first two bytes of `buf`, through
/// `byteorder::BigEndian::read_u16`.
///
/// Trusted: `BigEndian::read_u16` is `u16::from_be_bytes` of `buf[..2]`, which
/// panics on a shorter buffer; the contract claims exactly that value.
#[verifier::external_body]
pub(crate) fn read_u16_be(buf: &[u8]) -> (v: u16)
    requires
        buf@.len() >= 2,
    ensures
        v == be_u16(buf@[0], buf@[1]),
{
    byteorder::BigEndian::read_u16(buf)
}

/// The text that a byte string decodes to when it is valid UTF-8.
///
/// Trusted: `String::from_utf8` returns `Ok` exactly when the bytes are valid
/// UTF-8, with the string they encode; `valid_utf8` and `decode_utf8` are vstd's
/// statement of that encoding.
#[verifier::external_body]
pub(crate) fn utf8_string(bytes: Vec<u8>) -> (s: Option<String>)
    ensures
        s is Some <==> valid_utf8(bytes@),
        s matches Some(t) ==> t@ == decode_utf8(bytes@),
{
    match String::from_utf8(bytes) {
        Ok(s) => Some(s),
        Err(_) => None,
    }
}

/// Two bytes read in network order: the first is the high byte of the
/// value, the second the low byte, and nothing is lost.
pub proof fn lemma_be_u16(hi: u8, lo: u8)
    ensures
        be_u16(hi, lo) as int == hi * 256 + lo,
        be_u16(hi, lo) / 256 == hi,
        be_u16(hi, lo) % 256 == lo,
{
    assert(0 <= hi * 256 + lo < 0x1_0000) by (nonlinear_arith)
        requires
            0 <= hi < 256,
            0 <= lo < 256,
    ;
    let v = hi * 256 + lo;
    assert(v / 256 == hi && v % 256 == lo) by (nonlinear_arith)
        requires
            v == hi * 256 + lo,
            0 <= lo < 256,
    ;
}

} // verus!
