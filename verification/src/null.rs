//! The pass-through codec: declines every section. It lets callers that
//! enable no decompression codecs still assemble a valid, non-empty
//! dispatcher configuration.

use vstd::prelude::*;

use crate::extract::{extract_result_matches, SectionExtractor};
use crate::section::{Section, SectionView};
use crate::FirmwareFileSystemError;

verus! {

/// A codec that recognizes nothing and reports every section as
/// `Unsupported`.
#[derive(Debug, Default, Clone, Copy, PartialEq, Eq, Structural)]
pub struct NullSectionExtractor;

impl NullSectionExtractor {
    /// Creates a new `NullSectionExtractor` instance.
    pub fn new() -> (r: Self)
        ensures
            r == NullSectionExtractor,
    {
        NullSectionExtractor
    }
}

impl SectionExtractor for NullSectionExtractor {
    open spec fn spec_extract(&self, s: SectionView) -> Result<Seq<u8>, FirmwareFileSystemError> {
        Err(FirmwareFileSystemError::Unsupported)
    }

    fn extract(&self, section: &Section) -> (r: Result<Vec<u8>, FirmwareFileSystemError>)
        ensures
            extract_result_matches(r, self.spec_extract(section@)),
    {
        Err(FirmwareFileSystemError::Unsupported)
    }
}

} // verus!
