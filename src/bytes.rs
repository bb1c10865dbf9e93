use byteorder::{BigEndian, ByteOrder};
use vstd::prelude::*;

verus! {

/// The unsigned integer held big-endian in the two bytes of `s` at `off`.
pub open spec fn be_u16_at(s: Seq<u8>, off: int) -> int {
    s[off] as int * 0x100 + s[off + 1] as int
}

/// The unsigned integer held big-endian in the four bytes of `s` at `off`.
pub open spec fn be_u32_at(s: Seq<u8>, off: int) -> int {
    s[off] as int * 0x1000000 + s[off + 1] as int * 0x10000 + s[off + 2] as int * 0x100
        + s[off + 3] as int
}

/// Relies on byteorder's `BigEndian::read_u16`: the first two bytes of `buf`,
/// most significant first (it panics on a shorter buffer).
#[verifier::external_body]
pub(crate) fn read_be_u16(buf: &[u8]) -> (r: u16)
    requires
        buf@.len() >= 2,
    ensures
        r as int == be_u16_at(buf@, 0),
{
    BigEndian::read_u16(buf)
}

/// Relies on byteorder's `BigEndian::read_u32`: the first four bytes of `buf`,
/// most significant first (it panics on a shorter buffer).
#[verifier::external_body]
pub(crate) fn read_be_u32(buf: &[u8]) -> (r: u32)
    requires
        buf@.len() >= 4,
    ensures
        r as int == be_u32_at(buf@, 0),
{
    BigEndian::read_u32(buf)
}

} // verus!
