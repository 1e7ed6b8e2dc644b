//! The integrity-check codec: validates a 32-bit cyclic-redundancy
//! checksum embedded in the section header against the content bytes and
//! returns the content unmodified on a match.

use vstd::prelude::*;

use crate::bytes::{read_le_u32, spec_le_u32};
use crate::extract::{extract_result_matches, SectionExtractor};
use crate::guid::{crc32_section_guid, spec_crc32_section_guid};
use crate::section::{Section, SectionHeader, SectionHeaderView, SectionView};
use crate::FirmwareFileSystemError;

verus! {

/// The CRC-32 (IEEE 802.3 polynomial) of a byte sequence.
pub uninterp spec fn crc32_of(data: Seq<u8>) -> u32;

/// Relies on crc32fast::hash: the CRC-32 (IEEE 802.3) of the bytes,
/// a function of the bytes alone; the checksum of the empty sequence
/// is 0.
#[verifier::external_body]
fn crc32_hash(data: &[u8]) -> (r: u32)
    ensures
        r == crc32_of(data@),
        data@.len() == 0 ==> r == 0,
{
    crc32fast::hash(data)
}

/// Outcome of the checksum codec on a section: the content, unmodified,
/// when the section carries the checksum identifier, at least a 4-byte
/// checksum field, a usable content, and a checksum that matches the
/// content; `DataCorrupt` when anything of that fails past the
/// identifier; `Unsupported` when the identifier is another codec's.
pub open spec fn crc32_extract_spec(s: SectionView) -> Result<Seq<u8>, FirmwareFileSystemError> {
    match s.header {
        SectionHeaderView::GuidDefined { guid, guid_data, .. } => {
            if guid == spec_crc32_section_guid() {
                if guid_data.len() < 4 {
                    Err(FirmwareFileSystemError::DataCorrupt)
                } else {
                    match s.usable_content() {
                        Ok(content) => {
                            if spec_le_u32(guid_data.subrange(0, 4)) == crc32_of(content) {
                                Ok(content)
                            } else {
                                Err(FirmwareFileSystemError::DataCorrupt)
                            }
                        },
                        Err(e) => Err(e),
                    }
                }
            } else {
                Err(FirmwareFileSystemError::Unsupported)
            }
        },
        SectionHeaderView::Opaque => Err(FirmwareFileSystemError::Unsupported),
    }
}

/// Extraction for checksum-verified sections.
#[derive(Debug, Default, Clone, Copy, PartialEq, Eq, Structural)]
pub struct Crc32SectionExtractor;

impl Crc32SectionExtractor {
    /// Creates a new `Crc32SectionExtractor` instance.
    pub fn new() -> (r: Self)
        ensures
            r == Crc32SectionExtractor,
    {
        Crc32SectionExtractor
    }
}

impl SectionExtractor for Crc32SectionExtractor {
    open spec fn spec_extract(&self, s: SectionView) -> Result<Seq<u8>, FirmwareFileSystemError> {
        crc32_extract_spec(s)
    }

    fn extract(&self, section: &Section) -> (r: Result<Vec<u8>, FirmwareFileSystemError>)
        ensures
            extract_result_matches(r, crc32_extract_spec(section@)),
    {
        match section.header() {
            SectionHeader::GuidDefined(guid_header, crc_field, _) => {
                if guid_header.section_definition_guid == crc32_section_guid() {
                    if crc_field.len() < 4 {
                        return Err(FirmwareFileSystemError::DataCorrupt);
                    }
                    let stored = read_le_u32(crc_field.as_slice(), 0);
                    let content = match section.try_content_as_slice() {
                        Ok(c) => c,
                        Err(e) => { return Err(e) },
                    };
                    if stored != crc32_hash(content) {
                        return Err(FirmwareFileSystemError::DataCorrupt);
                    }
                    Ok(vstd::slice::slice_to_vec(content))
                } else {
                    Err(FirmwareFileSystemError::Unsupported)
                }
            },
            SectionHeader::Opaque => Err(FirmwareFileSystemError::Unsupported),
        }
    }
}

/// For all content, a checksum section whose stored field holds the
/// correct checksum of that content extracts to exactly that content.
pub proof fn lemma_crc32_correct_checksum_roundtrip(s: SectionView)
    requires
        s.header matches SectionHeaderView::GuidDefined { guid, guid_data, .. } && guid
            == spec_crc32_section_guid() && guid_data.len() >= 4 && spec_le_u32(
            guid_data.subrange(0, 4),
        ) == crc32_of(s.content),
        s.usable_content() == Ok::<Seq<u8>, FirmwareFileSystemError>(s.content),
    ensures
        crc32_extract_spec(s) == Ok::<Seq<u8>, FirmwareFileSystemError>(s.content),
{
}

/// For all content, a checksum section whose stored field holds any value
/// other than the correct checksum of that content is reported corrupt;
/// it never succeeds.
pub proof fn lemma_crc32_wrong_checksum_corrupt(s: SectionView)
    requires
        s.header matches SectionHeaderView::GuidDefined { guid, guid_data, .. } && guid
            == spec_crc32_section_guid() && guid_data.len() >= 4 && spec_le_u32(
            guid_data.subrange(0, 4),
        ) != crc32_of(s.content),
    ensures
        crc32_extract_spec(s) == Err::<Seq<u8>, FirmwareFileSystemError>(
            FirmwareFileSystemError::DataCorrupt,
        ),
{
}

/// A checksum field shorter than 4 bytes is reported corrupt, whatever
/// the content holds.
pub proof fn lemma_crc32_short_field_corrupt(s: SectionView)
    requires
        s.header matches SectionHeaderView::GuidDefined { guid, guid_data, .. } && guid
            == spec_crc32_section_guid() && guid_data.len() < 4,
    ensures
        crc32_extract_spec(s) == Err::<Seq<u8>, FirmwareFileSystemError>(
            FirmwareFileSystemError::DataCorrupt,
        ),
{
}

} // verus!
