//! 16-byte globally-unique type identifiers for section codecs.
//!
//! A section that needs algorithm-specific processing carries one of these
//! identifiers in its header; each codec owns exactly one identifier and
//! identifiers are compared for exact equality of all 16 bytes, never by
//! prefix.

use vstd::prelude::*;

verus! {

/// A 16-byte globally-unique identifier, packed into two 64-bit words.
///
/// `lo` holds the little-endian interpretation of bytes 0..8 of the wire
/// form (the `time_low`, `time_mid` and `time_hi_and_version` fields);
/// `hi` holds bytes 8..16 (the clock-sequence bytes and the node bytes).
/// Two identifiers are equal exactly when all 16 bytes are equal.
#[derive(Debug, Clone, Copy, PartialEq, Eq, Structural)]
pub struct Guid {
    pub lo: u64,
    pub hi: u64,
}

/// Low word of a GUID assembled from its leading named fields.
pub open spec fn spec_guid_lo(time_low: u32, time_mid: u16, time_hi_and_version: u16) -> u64 {
    (time_low + time_mid * 0x1_0000_0000u64 + time_hi_and_version * 0x1_0000_0000_0000u64) as u64
}

/// High word of a GUID assembled from the clock-sequence and node bytes.
pub open spec fn spec_guid_hi(clk_seq_hi_res: u8, clk_seq_low: u8, node: Seq<u8>) -> u64 {
    (clk_seq_hi_res + clk_seq_low * 0x100u64 + node[0] * 0x1_0000u64 + node[1] * 0x100_0000u64
        + node[2] * 0x1_0000_0000u64 + node[3] * 0x100_0000_0000u64 + node[4]
        * 0x1_0000_0000_0000u64 + node[5] * 0x100_0000_0000_0000u64) as u64
}

impl Guid {
    /// Assembles an identifier from the named fields of its textual form,
    /// as in `aabbccdd-eeff-0011-2233-445566778899`.
    pub fn from_fields(
        time_low: u32,
        time_mid: u16,
        time_hi_and_version: u16,
        clk_seq_hi_res: u8,
        clk_seq_low: u8,
        node: &[u8; 6],
    ) -> (g: Guid)
        ensures
            g.lo == spec_guid_lo(time_low, time_mid, time_hi_and_version),
            g.hi == spec_guid_hi(clk_seq_hi_res, clk_seq_low, node@),
    {
        let n = node.as_slice();
        let lo: u64 = time_low as u64 + time_mid as u64 * 0x1_0000_0000 + time_hi_and_version
            as u64 * 0x1_0000_0000_0000;
        let hi: u64 = clk_seq_hi_res as u64 + clk_seq_low as u64 * 0x100 + n[0] as u64 * 0x1_0000
            + n[1] as u64 * 0x100_0000 + n[2] as u64 * 0x1_0000_0000 + n[3] as u64
            * 0x100_0000_0000 + n[4] as u64 * 0x1_0000_0000_0000 + n[5] as u64
            * 0x100_0000_0000_0000;
        Guid { lo, hi }
    }
}

/// Identifier of the 32-bit cyclic-redundancy-checksum codec.
pub open spec fn spec_crc32_section_guid() -> Guid {
    Guid {
        lo: spec_guid_lo(0xFC1BCDB0, 0x7D31, 0x49AA),
        hi: spec_guid_hi(0x93, 0x6A, seq![0xA4u8, 0x60, 0x0D, 0x9D, 0xD0, 0x83]),
    }
}

/// Identifier of the decompression codec with the unknown-length-tolerant
/// stream layout.
pub open spec fn spec_lzma_section_guid() -> Guid {
    Guid {
        lo: spec_guid_lo(0xEE4E5898, 0x3914, 0x4259),
        hi: spec_guid_hi(0x9D, 0x6E, seq![0xDCu8, 0x7B, 0xD7, 0x94, 0x03, 0xCF]),
    }
}

/// Identifier of the decompression codec with the size-prefixed stream
/// layout.
pub open spec fn spec_brotli_section_guid() -> Guid {
    Guid {
        lo: spec_guid_lo(0x3D532050, 0x5CDA, 0x4FD0),
        hi: spec_guid_hi(0x87, 0x9E, seq![0x0Fu8, 0x7F, 0x63, 0x0D, 0x5A, 0xFB]),
    }
}

/// Runtime value of the checksum codec's identifier.
pub fn crc32_section_guid() -> (g: Guid)
    ensures
        g == spec_crc32_section_guid(),
{
    Guid::from_fields(0xFC1BCDB0, 0x7D31, 0x49AA, 0x93, 0x6A, &[0xA4, 0x60, 0x0D, 0x9D, 0xD0, 0x83])
}

/// Runtime value of the unknown-length-tolerant decompression codec's
/// identifier.
pub fn lzma_section_guid() -> (g: Guid)
    ensures
        g == spec_lzma_section_guid(),
{
    Guid::from_fields(0xEE4E5898, 0x3914, 0x4259, 0x9D, 0x6E, &[0xDC, 0x7B, 0xD7, 0x94, 0x03, 0xCF])
}

/// Runtime value of the size-prefixed decompression codec's identifier.
pub fn brotli_section_guid() -> (g: Guid)
    ensures
        g == spec_brotli_section_guid(),
{
    Guid::from_fields(0x3D532050, 0x5CDA, 0x4FD0, 0x87, 0x9E, &[0x0F, 0x7F, 0x63, 0x0D, 0x5A, 0xFB])
}

} // verus!
