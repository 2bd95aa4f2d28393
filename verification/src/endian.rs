//! Fixed-width little-endian integers, converted by the `byteorder` crate.
use byteorder::{ByteOrder, LittleEndian};
use vstd::prelude::*;

verus! {

/// The number that two bytes spell, least significant byte first.
pub open spec fn le_u16_value(bytes: Seq<u8>) -> int
    recommends
        bytes.len() >= 2,
{
    bytes[0] as int + 256 * (bytes[1] as int)
}

/// The number that four bytes spell, least significant byte first.
pub open spec fn le_u32_value(bytes: Seq<u8>) -> int
    recommends
        bytes.len() >= 4,
{
    bytes[0] as int + 256 * (bytes[1] as int) + 65536 * (bytes[2] as int) + 16777216 * (
    bytes[3] as int)
}

/// The two bytes of `n`, least significant first.
pub open spec fn le_u16_bytes(n: int) -> Seq<u8>
    recommends
        0 <= n < 0x1_0000,
{
    seq![(n % 256) as u8, (n / 256 % 256) as u8]
}

/// The four bytes of `n`, least significant first.
pub open spec fn le_u32_bytes(n: int) -> Seq<u8>
    recommends
        0 <= n < 0x1_0000_0000,
{
    seq![
        (n % 256) as u8,
        (n / 256 % 256) as u8,
        (n / 65536 % 256) as u8,
        (n / 16777216 % 256) as u8,
    ]
}

/// The signed reading, in two's complement, of an unsigned number below `modulus`.
pub open spec fn as_signed(n: int, modulus: int) -> int {
    if 2 * n >= modulus {
        n - modulus
    } else {
        n
    }
}

/// The unsigned number below `modulus` whose two's-complement reading is `n`.
pub open spec fn as_unsigned(n: int, modulus: int) -> int {
    if n < 0 {
        n + modulus
    } else {
        n
    }
}

/// Calls `byteorder::LittleEndian::read_u16`, which reads the first two bytes
/// of `buf` as an unsigned number, least significant byte first, and panics
/// on a shorter buffer.
#[verifier::external_body]
pub(crate) fn read_u16_le(buf: &[u8]) -> (r: u16)
    requires
        buf@.len() >= 2,
    ensures
        r as int == le_u16_value(buf@),
{
    LittleEndian::read_u16(buf)
}

/// Calls `byteorder::LittleEndian::read_u32`, which reads the first four bytes
/// of `buf` as an unsigned number, least significant byte first, and panics
/// on a shorter buffer.
#[verifier::external_body]
pub(crate) fn read_u32_le(buf: &[u8]) -> (r: u32)
    requires
        buf@.len() >= 4,
    ensures
        r as int == le_u32_value(buf@),
{
    LittleEndian::read_u32(buf)
}

/// Calls `byteorder::LittleEndian::read_i16`, which reads the first two bytes
/// of `buf` as `read_u16` does and takes the result in two's complement.
#[verifier::external_body]
pub(crate) fn read_i16_le(buf: &[u8]) -> (r: i16)
    requires
        buf@.len() >= 2,
    ensures
        r as int == as_signed(le_u16_value(buf@), 0x1_0000),
{
    LittleEndian::read_i16(buf)
}

/// Calls `byteorder::LittleEndian::read_i32`, which reads the first four bytes
/// of `buf` as `read_u32` does and takes the result in two's complement.
#[verifier::external_body]
pub(crate) fn read_i32_le(buf: &[u8]) -> (r: i32)
    requires
        buf@.len() >= 4,
    ensures
        r as int == as_signed(le_u32_value(buf@), 0x1_0000_0000),
{
    LittleEndian::read_i32(buf)
}

/// Calls `byteorder::LittleEndian::write_u16` on a buffer of two bytes, which
/// it fills with the bytes of `n`, least significant first.
#[verifier::external_body]
pub(crate) fn u16_le(n: u16) -> (r: [u8; 2])
    ensures
        r@ == le_u16_bytes(n as int),
{
    let mut buf = [0u8; 2];
    LittleEndian::write_u16(&mut buf, n);
    buf
}

/// Calls `byteorder::LittleEndian::write_u32` on a buffer of four bytes, which
/// it fills with the bytes of `n`, least significant first.
#[verifier::external_body]
pub(crate) fn u32_le(n: u32) -> (r: [u8; 4])
    ensures
        r@ == le_u32_bytes(n as int),
{
    let mut buf = [0u8; 4];
    LittleEndian::write_u32(&mut buf, n);
    buf
}

/// Calls `byteorder::LittleEndian::write_i16` on a buffer of two bytes, which
/// it fills with the bytes of the two's complement of `n`, least significant
/// first.
#[verifier::external_body]
pub(crate) fn i16_le(n: i16) -> (r: [u8; 2])
    ensures
        r@ == le_u16_bytes(as_unsigned(n as int, 0x1_0000)),
{
    let mut buf = [0u8; 2];
    LittleEndian::write_i16(&mut buf, n);
    buf
}

/// Calls `byteorder::LittleEndian::write_i32` on a buffer of four bytes, which
/// it fills with the bytes of the two's complement of `n`, least significant
/// first.
#[verifier::external_body]
pub(crate) fn i32_le(n: i32) -> (r: [u8; 4])
    ensures
        r@ == le_u32_bytes(as_unsigned(n as int, 0x1_0000_0000)),
{
    let mut buf = [0u8; 4];
    LittleEndian::write_i32(&mut buf, n);
    buf
}

/// Two bytes written least significant first spell the number they were made from.
pub proof fn lemma_le_u16_round_trip(n: int)
    requires
        0 <= n < 0x1_0000,
    ensures
        le_u16_bytes(n).len() == 2,
        le_u16_value(le_u16_bytes(n)) == n,
{
}

/// Four bytes written least significant first spell the number they were made from.
pub proof fn lemma_le_u32_round_trip(n: int)
    requires
        0 <= n < 0x1_0000_0000,
    ensures
        le_u32_bytes(n).len() == 4,
        le_u32_value(le_u32_bytes(n)) == n,
{
}

/// The two's-complement reading undoes the two's-complement writing.
pub proof fn lemma_signed_round_trip(n: int, modulus: int)
    requires
        modulus > 0,
        modulus % 2 == 0,
        -(modulus / 2) <= n < modulus / 2,
    ensures
        0 <= as_unsigned(n, modulus) < modulus,
        as_signed(as_unsigned(n, modulus), modulus) == n,
{
}

} // verus!
