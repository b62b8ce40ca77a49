//! Numbers as bytes in little-endian order, as they are written into the
//! memory of a guest and into the bytes that leave the server.

use vstd::prelude::*;

verus! {

/// The four bytes of a number, least significant first.
pub open spec fn spec_le_bytes(value: u32) -> Seq<u8> {
    seq![
        (value % 256) as u8,
        ((value / 256) % 256) as u8,
        ((value / 65536) % 256) as u8,
        ((value / 16777216) % 256) as u8,
    ]
}

/// The number that four bytes stand for, least significant first.
pub open spec fn spec_le_value(bytes: Seq<u8>) -> int
    recommends
        bytes.len() == 4,
{
    bytes[0] + 256 * bytes[1] + 65536 * bytes[2] + 16777216 * bytes[3]
}

/// `byteorder::LittleEndian::write_u32` on a buffer of four bytes: the bytes of
/// the number in little-endian order.
#[verifier::external_body]
pub(crate) fn le_bytes(value: u32) -> (bytes: Vec<u8>)
    ensures
        bytes@ == spec_le_bytes(value),
{
    let mut bytes = vec![0u8; 4];
    <byteorder::LittleEndian as byteorder::ByteOrder>::write_u32(&mut bytes, value);
    bytes
}

/// `byteorder::LittleEndian::read_u32`: the number that the first four bytes
/// hold in little-endian order. It panics on fewer than four bytes, which are
/// left out.
#[verifier::external_body]
pub(crate) fn le_value(bytes: &[u8]) -> (value: u32)
    requires
        bytes@.len() >= 4,
    ensures
        value == spec_le_value(bytes@.take(4)),
{
    <byteorder::LittleEndian as byteorder::ByteOrder>::read_u32(bytes)
}

/// Reading the bytes of a number gives the number back.
pub proof fn lemma_le_round_trip(value: u32)
    ensures
        spec_le_bytes(value).len() == 4,
        spec_le_value(spec_le_bytes(value)) == value,
{
}

} // verus!
