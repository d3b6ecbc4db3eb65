//! Byte-order helpers: reading and writing the fixed network-byte-order
//! numeric fields of the wire format, and the little-endian two-byte family
//! field, with round-trip lemmas.

use vstd::prelude::*;

verus! {

/// The 16-bit value whose network-byte-order encoding is `b0 b1`.
pub open spec fn spec_u16_from_be(b0: u8, b1: u8) -> u16 {
    (b0 as int * 256 + b1 as int) as u16
}

/// The 16-bit value whose little-endian encoding is `b0 b1`.
pub open spec fn spec_u16_from_le(b0: u8, b1: u8) -> u16 {
    (b1 as int * 256 + b0 as int) as u16
}

/// High byte of a 16-bit value.
pub open spec fn spec_u16_hi(v: u16) -> u8 {
    (v / 256) as u8
}

/// Low byte of a 16-bit value.
pub open spec fn spec_u16_lo(v: u16) -> u8 {
    (v % 256) as u8
}

/// The network-byte-order bytes of a 16-bit value, high byte first.
pub open spec fn spec_be_u16(v: u16) -> Seq<u8> {
    seq![spec_u16_hi(v), spec_u16_lo(v)]
}

/// The 32-bit value whose network-byte-order encoding is `b0 b1 b2 b3`.
pub open spec fn spec_u32_from_be(b0: u8, b1: u8, b2: u8, b3: u8) -> u32 {
    (spec_u16_from_be(b0, b1) as int * 65536 + spec_u16_from_be(b2, b3) as int) as u32
}

/// The network-byte-order bytes of a 32-bit value, high byte first.
pub open spec fn spec_be_u32(v: u32) -> Seq<u8> {
    spec_be_u16((v / 65536) as u16) + spec_be_u16((v % 65536) as u16)
}

/// Law: assembling a 16-bit value from its own network-order bytes yields
/// the value back.
pub proof fn lemma_u16_be_round_trip(v: u16)
    ensures
        spec_u16_from_be(spec_u16_hi(v), spec_u16_lo(v)) == v,
{
}

/// Law: assembling a 16-bit value from its own little-endian bytes yields
/// the value back.
pub proof fn lemma_u16_le_round_trip(v: u16)
    ensures
        spec_u16_from_le(spec_u16_lo(v), spec_u16_hi(v)) == v,
{
}

/// Law: assembling a 32-bit value from its own network-order bytes yields
/// the value back.
pub proof fn lemma_u32_be_round_trip(v: u32)
    ensures
        spec_u32_from_be(
            spec_be_u32(v)[0],
            spec_be_u32(v)[1],
            spec_be_u32(v)[2],
            spec_be_u32(v)[3],
        ) == v,
{
    let hi: u16 = (v / 65536) as u16;
    let lo: u16 = (v % 65536) as u16;
    lemma_u16_be_round_trip(hi);
    lemma_u16_be_round_trip(lo);
    assert(spec_be_u32(v)[0] == spec_u16_hi(hi));
    assert(spec_be_u32(v)[1] == spec_u16_lo(hi));
    assert(spec_be_u32(v)[2] == spec_u16_hi(lo));
    assert(spec_be_u32(v)[3] == spec_u16_lo(lo));
}

/// Reads a 16-bit value from two network-order bytes.
pub fn u16_from_be(b0: u8, b1: u8) -> (r: u16)
    ensures
        r == spec_u16_from_be(b0, b1),
{
    (b0 as u16) * 256 + (b1 as u16)
}

/// Reads a 16-bit value from two little-endian bytes.
pub fn u16_from_le(b0: u8, b1: u8) -> (r: u16)
    ensures
        r == spec_u16_from_le(b0, b1),
{
    (b1 as u16) * 256 + (b0 as u16)
}

/// The high and low network-order bytes of a 16-bit value.
pub fn be_u16(v: u16) -> (r: (u8, u8))
    ensures
        r.0 == spec_u16_hi(v),
        r.1 == spec_u16_lo(v),
        seq![r.0, r.1] == spec_be_u16(v),
{
    ((v / 256) as u8, (v % 256) as u8)
}

/// Reads a 32-bit value from four network-order bytes.
pub fn u32_from_be(b0: u8, b1: u8, b2: u8, b3: u8) -> (r: u32)
    ensures
        r == spec_u32_from_be(b0, b1, b2, b3),
{
    let hi = u16_from_be(b0, b1);
    let lo = u16_from_be(b2, b3);
    (hi as u32) * 65536 + (lo as u32)
}

/// The four network-order bytes of a 32-bit value, high byte first.
pub fn be_u32(v: u32) -> (r: (u8, u8, u8, u8))
    ensures
        seq![r.0, r.1, r.2, r.3] == spec_be_u32(v),
{
    let hi = be_u16((v / 65536) as u16);
    let lo = be_u16((v % 65536) as u16);
    let r = (hi.0, hi.1, lo.0, lo.1);
    proof {
        assert(seq![r.0, r.1, r.2, r.3] =~= spec_be_u32(v));
    }
    r
}

} // verus!
