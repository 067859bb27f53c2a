//! Big-endian decoding of register contents.
use vstd::prelude::*;
use byteorder::{BigEndian, ByteOrder};

verus! {

/// The unsigned value of the big-endian byte pair `hi`, `lo`.
pub open spec fn be_u16(hi: u8, lo: u8) -> int {
    hi as int * 256 + lo as int
}

/// The two's complement value of the big-endian byte pair `hi`, `lo`.
pub open spec fn be_i16(hi: u8, lo: u8) -> int {
    if hi < 128 {
        be_u16(hi, lo)
    } else {
        be_u16(hi, lo) - 65536
    }
}

/// The unsigned value of the big-endian byte triple `msb`, `lsb`, `xlsb`.
pub open spec fn be_u24(msb: u8, lsb: u8, xlsb: u8) -> int {
    msb as int * 65536 + lsb as int * 256 + xlsb as int
}

/// Relies on byteorder's `BigEndian::read_u16`: the first two bytes as a
/// big-endian `u16` (it panics on fewer than two bytes).
#[verifier::external_body]
pub(crate) fn read_u16_be(bytes: &[u8]) -> (r: u16)
    requires
        bytes@.len() >= 2,
    ensures
        r as int == be_u16(bytes@[0], bytes@[1]),
{
    BigEndian::read_u16(bytes)
}

/// Relies on byteorder's `BigEndian::read_i16`: the first two bytes as a
/// big-endian two's complement `i16` (it panics on fewer than two bytes).
#[verifier::external_body]
pub(crate) fn read_i16_be(bytes: &[u8]) -> (r: i16)
    requires
        bytes@.len() >= 2,
    ensures
        r as int == be_i16(bytes@[0], bytes@[1]),
{
    BigEndian::read_i16(bytes)
}

} // verus!
