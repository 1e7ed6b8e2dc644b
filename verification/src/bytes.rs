//! Little-endian integer fields read out of raw section payloads.

use vstd::prelude::*;

verus! {

/// Value of a 4-byte little-endian field.
pub open spec fn spec_le_u32(b: Seq<u8>) -> u32
    recommends
        b.len() == 4,
{
    (b[0] + b[1] * 0x100u32 + b[2] * 0x1_0000u32 + b[3] * 0x100_0000u32) as u32
}

/// Value of an 8-byte little-endian field.
pub open spec fn spec_le_u64(b: Seq<u8>) -> u64
    recommends
        b.len() == 8,
{
    (b[0] + b[1] * 0x100u64 + b[2] * 0x1_0000u64 + b[3] * 0x100_0000u64 + b[4]
        * 0x1_0000_0000u64 + b[5] * 0x100_0000_0000u64 + b[6] * 0x1_0000_0000_0000u64 + b[7]
        * 0x100_0000_0000_0000u64) as u64
}

/// Reads the 4-byte little-endian field starting at `at`.
pub fn read_le_u32(bytes: &[u8], at: usize) -> (r: u32)
    requires
        at + 4 <= bytes@.len(),
    ensures
        r == spec_le_u32(bytes@.subrange(at as int, at + 4)),
{
    let n: usize = bytes.len();
    proof {
        assert(at + 4 <= n);
    }
    let b0 = *vstd::slice::slice_index_get(bytes, at);
    let b1 = *vstd::slice::slice_index_get(bytes, at + 1);
    let b2 = *vstd::slice::slice_index_get(bytes, at + 2);
    let b3 = *vstd::slice::slice_index_get(bytes, at + 3);
    b0 as u32 + b1 as u32 * 0x100 + b2 as u32 * 0x1_0000 + b3 as u32 * 0x100_0000
}

/// Reads the 8-byte little-endian field starting at `at`.
pub fn read_le_u64(bytes: &[u8], at: usize) -> (r: u64)
    requires
        at + 8 <= bytes@.len(),
    ensures
        r == spec_le_u64(bytes@.subrange(at as int, at + 8)),
{
    let n: usize = bytes.len();
    proof {
        assert(at + 8 <= n);
    }
    let b0 = *vstd::slice::slice_index_get(bytes, at);
    let b1 = *vstd::slice::slice_index_get(bytes, at + 1);
    let b2 = *vstd::slice::slice_index_get(bytes, at + 2);
    let b3 = *vstd::slice::slice_index_get(bytes, at + 3);
    let b4 = *vstd::slice::slice_index_get(bytes, at + 4);
    let b5 = *vstd::slice::slice_index_get(bytes, at + 5);
    let b6 = *vstd::slice::slice_index_get(bytes, at + 6);
    let b7 = *vstd::slice::slice_index_get(bytes, at + 7);
    b0 as u64 + b1 as u64 * 0x100 + b2 as u64 * 0x1_0000 + b3 as u64 * 0x100_0000 + b4 as u64
        * 0x1_0000_0000 + b5 as u64 * 0x100_0000_0000 + b6 as u64 * 0x1_0000_0000_0000 + b7
        as u64 * 0x100_0000_0000_0000
}

/// The 4-byte little-endian encoding of a 32-bit value; reading the
/// result back with `spec_le_u32` yields the value again.
pub fn le_bytes_of_u32(v: u32) -> (r: Vec<u8>)
    ensures
        r@.len() == 4,
        spec_le_u32(r@) == v,
{
    let b0: u8 = (v % 0x100) as u8;
    let b1: u8 = ((v / 0x100) % 0x100) as u8;
    let b2: u8 = ((v / 0x1_0000) % 0x100) as u8;
    let b3: u8 = ((v / 0x100_0000) % 0x100) as u8;
    proof {
        assert(b0 + b1 * 0x100u32 + b2 * 0x1_0000u32 + b3 * 0x100_0000u32 == v) by (bit_vector)
            requires
                b0 == (v % 0x100) as u8 && b1 == ((v / 0x100) % 0x100) as u8 && b2 == ((v
                    / 0x1_0000) % 0x100) as u8 && b3 == ((v / 0x100_0000) % 0x100) as u8,
        ;
    }
    let mut r: Vec<u8> = Vec::new();
    r.push(b0);
    r.push(b1);
    r.push(b2);
    r.push(b3);
    proof {
        assert(r@ =~= seq![b0, b1, b2, b3]);
    }
    r
}

} // verus!
