//! The decompression codec with the size-prefixed stream layout: an
//! 8-byte little-endian declared-output-size field, an 8-byte
//! scratch-size field (informational only), then the raw compressed
//! stream. Decompression must produce exactly the declared output size;
//! a decode failure or a size mismatch is corruption.

use vstd::prelude::*;

use crate::bytes::{read_le_u64, spec_le_u64};
use crate::extract::{extract_result_matches, SectionExtractor};
use crate::guid::{brotli_section_guid, spec_brotli_section_guid};
use crate::section::{Section, SectionHeader, SectionHeaderView, SectionView};
use crate::FirmwareFileSystemError;

verus! {

/// What the stream decoder produces from the raw compressed bytes: the
/// decoded bytes, or nothing when it rejects the stream.
pub uninterp spec fn brotli_decode(data: Seq<u8>) -> Option<Seq<u8>>;

/// Relies on brotli_decompressor::BrotliDecompress: decodes the raw
/// stream held in `data`, a function of the bytes alone.
#[verifier::external_body]
fn brotli_decompress_bytes(data: &[u8]) -> (r: Result<Vec<u8>, FirmwareFileSystemError>)
    ensures
        match r {
            Ok(v) => brotli_decode(data@) == Some(v@),
            Err(e) => e == FirmwareFileSystemError::DataCorrupt && brotli_decode(data@) is None,
        },
{
    let mut decompressed: Vec<u8> = Vec::new();
    let mut cursor = std::io::Cursor::new(data);
    match brotli_decompressor::BrotliDecompress(&mut cursor, &mut decompressed) {
        Ok(()) => Ok(decompressed),
        Err(_) => Err(FirmwareFileSystemError::DataCorrupt),
    }
}

/// Outcome of the size-prefixed decompression codec: the decoded bytes
/// when the section carries this codec's identifier, a usable content of
/// at least the 16 leading layout bytes, a stream the decoder accepts,
/// and a decoded length equal to the declared output size; `DataCorrupt`
/// when anything of that fails past the identifier; `Unsupported` when
/// the identifier is another codec's.
pub open spec fn brotli_extract_spec(s: SectionView) -> Result<Seq<u8>, FirmwareFileSystemError> {
    match s.header {
        SectionHeaderView::GuidDefined { guid, .. } => {
            if guid == spec_brotli_section_guid() {
                match s.usable_content() {
                    Ok(data) => {
                        if data.len() < 16 {
                            Err(FirmwareFileSystemError::DataCorrupt)
                        } else {
                            match brotli_decode(data.skip(16)) {
                                Some(out) => {
                                    if out.len() == spec_le_u64(data.subrange(0, 8)) {
                                        Ok(out)
                                    } else {
                                        Err(FirmwareFileSystemError::DataCorrupt)
                                    }
                                },
                                None => Err(FirmwareFileSystemError::DataCorrupt),
                            }
                        }
                    },
                    Err(e) => Err(e),
                }
            } else {
                Err(FirmwareFileSystemError::Unsupported)
            }
        },
        SectionHeaderView::Opaque => Err(FirmwareFileSystemError::Unsupported),
    }
}

/// Extraction for sections compressed with the size-prefixed stream
/// layout.
#[derive(Debug, Default, Clone, Copy, PartialEq, Eq, Structural)]
pub struct BrotliSectionExtractor;

impl BrotliSectionExtractor {
    /// Creates a new `BrotliSectionExtractor` instance.
    pub fn new() -> (r: Self)
        ensures
            r == BrotliSectionExtractor,
    {
        BrotliSectionExtractor
    }
}

impl SectionExtractor for BrotliSectionExtractor {
    open spec fn spec_extract(&self, s: SectionView) -> Result<Seq<u8>, FirmwareFileSystemError> {
        brotli_extract_spec(s)
    }

    fn extract(&self, section: &Section) -> (r: Result<Vec<u8>, FirmwareFileSystemError>)
        ensures
            extract_result_matches(r, brotli_extract_spec(section@)),
    {
        match section.header() {
            SectionHeader::GuidDefined(guid_header, _, _) => {
                if guid_header.section_definition_guid == brotli_section_guid() {
                    let data = match section.try_content_as_slice() {
                        Ok(d) => d,
                        Err(e) => { return Err(e) },
                    };
                    if data.len() < 16 {
                        return Err(FirmwareFileSystemError::DataCorrupt);
                    }
                    let declared_out_size = read_le_u64(data, 0);
                    let stream = vstd::slice::slice_subrange(data, 16, data.len());
                    let out = match brotli_decompress_bytes(stream) {
                        Ok(v) => v,
                        Err(e) => { return Err(e) },
                    };
                    proof {
                        assert(stream@ =~= section@.usable_content()->Ok_0.skip(16));
                    }
                    if out.len() as u64 == declared_out_size {
                        Ok(out)
                    } else {
                        Err(FirmwareFileSystemError::DataCorrupt)
                    }
                } else {
                    Err(FirmwareFileSystemError::Unsupported)
                }
            },
            SectionHeader::Opaque => Err(FirmwareFileSystemError::Unsupported),
        }
    }
}

/// A recognized section whose payload is shorter than the 16 leading
/// layout bytes, whose stream the decoder rejects, or whose decoded
/// length differs from the declared output size, is reported corrupt;
/// it never succeeds and an error carries no bytes.
pub proof fn lemma_brotli_invalid_stream_corrupt(s: SectionView)
    requires
        s.header matches SectionHeaderView::GuidDefined { guid, .. } && guid
            == spec_brotli_section_guid(),
        s.usable_content() matches Ok(data) && (data.len() < 16 || brotli_decode(data.skip(16))
            is None || (brotli_decode(data.skip(16)) matches Some(out) && out.len()
            != spec_le_u64(data.subrange(0, 8)))),
    ensures
        brotli_extract_spec(s) == Err::<Seq<u8>, FirmwareFileSystemError>(
            FirmwareFileSystemError::DataCorrupt,
        ),
{
}

} // verus!
