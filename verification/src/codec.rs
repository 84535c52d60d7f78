//! Little-endian encoding of the 32-bit counter.
//!
//! The counter lives in bytes `[0, 4)` of an account's data buffer as an
//! unsigned 32-bit integer, little-endian. This module reads and writes
//! that representation and proves that the two directions compose to the
//! identity.

use vstd::prelude::*;

verus! {

/// The unsigned 32-bit integer stored little-endian in the first four
/// bytes of `b`.
pub open spec fn le_bytes_to_u32(b: Seq<u8>) -> u32
    recommends
        b.len() >= 4,
{
    (b[0] + b[1] * 0x100 + b[2] * 0x1_0000 + b[3] * 0x100_0000) as u32
}

/// The four little-endian bytes of `v`, least significant first.
pub open spec fn u32_to_le_bytes(v: u32) -> Seq<u8> {
    seq![
        (v % 0x100) as u8,
        ((v / 0x100) % 0x100) as u8,
        ((v / 0x1_0000) % 0x100) as u8,
        ((v / 0x100_0000) % 0x100) as u8,
    ]
}

/// Decodes the counter from the first four bytes of `data`.
pub fn read_u32_le(data: &Vec<u8>) -> (v: u32)
    requires
        data@.len() >= 4,
    ensures
        v == le_bytes_to_u32(data@),
{
    let b0: u32 = data[0] as u32;
    let b1: u32 = data[1] as u32;
    let b2: u32 = data[2] as u32;
    let b3: u32 = data[3] as u32;
    b0 + b1 * 0x100 + b2 * 0x1_0000 + b3 * 0x100_0000
}

/// Overwrites bytes `[0, 4)` of `data` with the little-endian encoding of
/// `v`, leaving every byte past offset 4 untouched.
pub fn write_u32_le(data: &mut Vec<u8>, v: u32)
    requires
        old(data)@.len() >= 4,
    ensures
        final(data)@ == u32_to_le_bytes(v) + old(data)@.skip(4),
{
    let b0: u8 = (v % 0x100) as u8;
    let b1: u8 = ((v / 0x100) % 0x100) as u8;
    let b2: u8 = ((v / 0x1_0000) % 0x100) as u8;
    let b3: u8 = ((v / 0x100_0000) % 0x100) as u8;
    data[0] = b0;
    data[1] = b1;
    data[2] = b2;
    data[3] = b3;
    proof {
        assert(data@ =~= u32_to_le_bytes(v) + old(data)@.skip(4));
    }
}

/// Law: encoding a counter value to four little-endian bytes and decoding
/// them back yields the original value, for every 32-bit value.
pub proof fn lemma_le_round_trip(v: u32)
    ensures
        le_bytes_to_u32(u32_to_le_bytes(v)) == v,
{
    assert(v % 0x100 + ((v / 0x100) % 0x100) * 0x100 + ((v / 0x1_0000) % 0x100) * 0x1_0000 + ((v
        / 0x100_0000) % 0x100) * 0x100_0000 == v) by (bit_vector);
}

} // verus!
