//! The decompression codec with the unknown-length-tolerant stream
//! layout: 5 bytes of stream properties, then an 8-byte little-endian
//! declared uncompressed size (all 64 bits set meaning "unknown"), then
//! the raw compressed stream. The declared size is advisory, for
//! pre-sizing the output buffer only; the decoded length is whatever the
//! decoder produces.

use vstd::prelude::*;

use crate::bytes::read_le_u64;
use crate::extract::{extract_result_matches, SectionExtractor};
use crate::guid::{lzma_section_guid, spec_lzma_section_guid};
use crate::section::{Section, SectionHeader, SectionHeaderView, SectionView};
use crate::FirmwareFileSystemError;

verus! {

/// Sentinel in the declared-size field meaning the uncompressed size was
/// not known when the stream was produced.
pub const LZMA_UNKNOWN_UNPACKED_SIZE_MAGIC_VALUE: u64 = 0xFFFF_FFFF_FFFF_FFFF;

/// What the stream decoder produces from the payload bytes (properties,
/// size field and compressed stream together): the decoded bytes, or
/// nothing when it rejects the payload.
pub uninterp spec fn lzma_decode(data: Seq<u8>) -> Option<Seq<u8>>;

/// Relies on patina_lzma_rs::lzma_decompress: decodes the stream held in
/// `data` (its own header included), a function of the bytes alone; the
/// capacity hint only pre-sizes the output buffer.
#[verifier::external_body]
fn lzma_decompress_bytes(data: &[u8], capacity_hint: usize) -> (r: Result<
    Vec<u8>,
    FirmwareFileSystemError,
>)
    ensures
        match r {
            Ok(v) => lzma_decode(data@) == Some(v@),
            Err(e) => e == FirmwareFileSystemError::DataCorrupt && lzma_decode(data@) is None,
        },
{
    let mut decompressed: Vec<u8> = Vec::with_capacity(capacity_hint);
    let mut cursor = patina_lzma_rs::io::Cursor::new(data);
    match patina_lzma_rs::lzma_decompress(&mut cursor, &mut decompressed) {
        Ok(()) => Ok(decompressed),
        Err(_) => Err(FirmwareFileSystemError::DataCorrupt),
    }
}

/// Outcome of the unknown-length-tolerant decompression codec: the
/// decoded bytes when the section carries this codec's identifier, a
/// usable content of at least the 13 leading layout bytes, and a stream
/// the decoder accepts; `DataCorrupt` when anything of that fails past
/// the identifier; `Unsupported` when the identifier is another codec's.
pub open spec fn lzma_extract_spec(s: SectionView) -> Result<Seq<u8>, FirmwareFileSystemError> {
    match s.header {
        SectionHeaderView::GuidDefined { guid, .. } => {
            if guid == spec_lzma_section_guid() {
                match s.usable_content() {
                    Ok(data) => {
                        if data.len() < 13 {
                            Err(FirmwareFileSystemError::DataCorrupt)
                        } else {
                            match lzma_decode(data) {
                                Some(out) => Ok(out),
                                None => Err(FirmwareFileSystemError::DataCorrupt),
                            }
                        }
                    },
                    Err(e) => Err(e),
                }
            } else {
                Err(FirmwareFileSystemError::Unsupported)
            }
        },
        SectionHeaderView::Opaque => Err(FirmwareFileSystemError::Unsupported),
    }
}

/// Extraction for sections compressed with the unknown-length-tolerant
/// stream layout.
#[derive(Debug, Default, Clone, Copy, PartialEq, Eq, Structural)]
pub struct LzmaSectionExtractor;

impl LzmaSectionExtractor {
    /// Creates a new `LzmaSectionExtractor` instance.
    pub fn new() -> (r: Self)
        ensures
            r == LzmaSectionExtractor,
    {
        LzmaSectionExtractor
    }
}

impl SectionExtractor for LzmaSectionExtractor {
    open spec fn spec_extract(&self, s: SectionView) -> Result<Seq<u8>, FirmwareFileSystemError> {
        lzma_extract_spec(s)
    }

    fn extract(&self, section: &Section) -> (r: Result<Vec<u8>, FirmwareFileSystemError>)
        ensures
            extract_result_matches(r, lzma_extract_spec(section@)),
    {
        match section.header() {
            SectionHeader::GuidDefined(guid_header, _, _) => {
                if guid_header.section_definition_guid == lzma_section_guid() {
                    let data = match section.try_content_as_slice() {
                        Ok(d) => d,
                        Err(e) => { return Err(e) },
                    };
                    if data.len() < 13 {
                        return Err(FirmwareFileSystemError::DataCorrupt);
                    }
                    // The declared uncompressed size follows the 5
                    // property bytes; it pre-sizes the output buffer
                    // unless it is the unknown-size sentinel or too
                    // large to be a plausible allocation on this
                    // machine.
                    let unpacked_size = read_le_u64(data, 5);
                    let capacity_hint: usize = if unpacked_size
                        == LZMA_UNKNOWN_UNPACKED_SIZE_MAGIC_VALUE || unpacked_size > usize::MAX
                        as u64 {
                        0
                    } else {
                        unpacked_size as usize
                    };
                    lzma_decompress_bytes(data, capacity_hint)
                } else {
                    Err(FirmwareFileSystemError::Unsupported)
                }
            },
            SectionHeader::Opaque => Err(FirmwareFileSystemError::Unsupported),
        }
    }
}

/// A recognized section whose payload is shorter than the 13 leading
/// layout bytes, or whose stream the decoder rejects, is reported
/// corrupt; it never succeeds and an error carries no bytes.
pub proof fn lemma_lzma_invalid_stream_corrupt(s: SectionView)
    requires
        s.header matches SectionHeaderView::GuidDefined { guid, .. } && guid
            == spec_lzma_section_guid(),
        s.usable_content() matches Ok(data) && (data.len() < 13 || lzma_decode(data) is None),
    ensures
        lzma_extract_spec(s) == Err::<Seq<u8>, FirmwareFileSystemError>(
            FirmwareFileSystemError::DataCorrupt,
        ),
{
}

} // verus!
