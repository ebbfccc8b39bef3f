//! Little-endian integers, read and written through `byteorder`.
use byteorder::{ByteOrder, LittleEndian};
use vstd::prelude::*;

verus! {

/// The eight little-endian bytes of `n`.
pub open spec fn le_bytes(n: u64) -> Seq<u8> {
    seq![
        n as u8,
        (n >> 8u64) as u8,
        (n >> 16u64) as u8,
        (n >> 24u64) as u8,
        (n >> 32u64) as u8,
        (n >> 40u64) as u8,
        (n >> 48u64) as u8,
        (n >> 56u64) as u8,
    ]
}

/// The integer whose little-endian bytes are the first eight of `b`.
pub open spec fn le_value(b: Seq<u8>) -> u64 {
    (b[0] as u64) | ((b[1] as u64) << 8u64) | ((b[2] as u64) << 16u64) | ((b[3] as u64)
        << 24u64) | ((b[4] as u64) << 32u64) | ((b[5] as u64) << 40u64) | ((b[6] as u64)
        << 48u64) | ((b[7] as u64) << 56u64)
}

/// Reading back the bytes written for `n` gives `n`.
pub proof fn lemma_le_round_trip(n: u64)
    ensures
        le_bytes(n).len() == 8,
        le_value(le_bytes(n)) == n,
{
    let b = le_bytes(n);
    assert(b[0] == n as u8 && b[1] == (n >> 8u64) as u8 && b[2] == (n >> 16u64) as u8 && b[3]
        == (n >> 24u64) as u8 && b[4] == (n >> 32u64) as u8 && b[5] == (n >> 40u64) as u8 && b[6]
        == (n >> 48u64) as u8 && b[7] == (n >> 56u64) as u8);
    assert(((n as u8) as u64) | ((((n >> 8u64) as u8) as u64) << 8u64) | ((((n >> 16u64) as u8)
        as u64) << 16u64) | ((((n >> 24u64) as u8) as u64) << 24u64) | ((((n >> 32u64) as u8)
        as u64) << 32u64) | ((((n >> 40u64) as u8) as u64) << 40u64) | ((((n >> 48u64) as u8)
        as u64) << 48u64) | ((((n >> 56u64) as u8) as u64) << 56u64) == n) by (bit_vector);
}

/// The four little-endian bytes of `n`.
pub open spec fn le4_bytes(n: u32) -> Seq<u8> {
    seq![n as u8, (n >> 8u32) as u8, (n >> 16u32) as u8, (n >> 24u32) as u8]
}

/// The integer whose little-endian bytes are the first four of `b`.
pub open spec fn le4_value(b: Seq<u8>) -> u32 {
    (b[0] as u32) | ((b[1] as u32) << 8u32) | ((b[2] as u32) << 16u32) | ((b[3] as u32)
        << 24u32)
}

/// Reading back the four bytes written for `n` gives `n`.
pub proof fn lemma_le4_round_trip(n: u32)
    ensures
        le4_bytes(n).len() == 4,
        le4_value(le4_bytes(n)) == n,
{
    let b = le4_bytes(n);
    assert(b[0] == n as u8 && b[1] == (n >> 8u32) as u8 && b[2] == (n >> 16u32) as u8 && b[3]
        == (n >> 24u32) as u8);
    assert(((n as u8) as u32) | ((((n >> 8u32) as u8) as u32) << 8u32) | ((((n >> 16u32) as u8)
        as u32) << 16u32) | ((((n >> 24u32) as u8) as u32) << 24u32) == n) by (bit_vector);
}

/// A signed integer read back from the bytes of its two's-complement form.
pub proof fn lemma_i64_round_trip(x: i64)
    ensures
        (#[verifier::truncate] ((#[verifier::truncate] (x as u64)) as i64)) == x,
{
    assert((#[verifier::truncate] ((#[verifier::truncate] (x as u64)) as i64)) == x) by (bit_vector);
}

/// Relies on `byteorder::LittleEndian::read_u64`: the eight bytes of `buf`
/// from `pos` on as a little-endian integer (it panics on fewer than eight).
#[verifier::external_body]
pub(crate) fn read_u64_at(buf: &[u8], pos: usize) -> (r: u64)
    requires
        pos + 8 <= buf@.len(),
    ensures
        r == le_value(buf@.subrange(pos as int, pos + 8)),
{
    LittleEndian::read_u64(&buf[pos..])
}

/// Relies on `byteorder::LittleEndian::read_i64`: the eight bytes of `buf`
/// from `pos` on as a little-endian two's-complement integer (it panics on
/// fewer than eight).
#[verifier::external_body]
pub(crate) fn read_i64_at(buf: &[u8], pos: usize) -> (r: i64)
    requires
        pos + 8 <= buf@.len(),
    ensures
        r == le_value(buf@.subrange(pos as int, pos + 8)) as i64,
{
    LittleEndian::read_i64(&buf[pos..])
}

/// Relies on `byteorder::LittleEndian::read_u32`: the four bytes of `buf`
/// from `pos` on as a little-endian integer (it panics on fewer than four).
#[verifier::external_body]
pub(crate) fn read_u32_at(buf: &[u8], pos: usize) -> (r: u32)
    requires
        pos + 4 <= buf@.len(),
    ensures
        r == le4_value(buf@.subrange(pos as int, pos + 4)),
{
    LittleEndian::read_u32(&buf[pos..])
}

/// Relies on `byteorder::LittleEndian::write_u32`: writes the four
/// little-endian bytes of `n`.
#[verifier::external_body]
pub(crate) fn write_u32_le(n: u32) -> (r: Vec<u8>)
    ensures
        r@ == le4_bytes(n),
{
    let mut buf = [0u8; 4];
    LittleEndian::write_u32(&mut buf, n);
    buf.to_vec()
}

/// Relies on `byteorder::LittleEndian::write_u64`: writes the eight
/// little-endian bytes of `n`.
#[verifier::external_body]
pub(crate) fn write_u64_le(n: u64) -> (r: Vec<u8>)
    ensures
        r@ == le_bytes(n),
{
    let mut buf = [0u8; 8];
    LittleEndian::write_u64(&mut buf, n);
    buf.to_vec()
}

} // verus!
