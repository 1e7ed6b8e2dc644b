//! The shared section-extraction capability.
//!
//! A codec is given a section and produces either the decoded content
//! bytes, or `Unsupported` ("not my format" — the signal that lets codecs
//! be composed), or `DataCorrupt` ("my format, but invalid"). Extraction
//! is a pure function of the section: every implementor fixes its
//! behaviour as a specification-level function, and its executable
//! `extract` is proved to return exactly that.

use vstd::prelude::*;

use crate::section::{Section, SectionView};
use crate::FirmwareFileSystemError;

verus! {

/// Relates an executable extraction result to its mathematical model:
/// decoded bytes must match exactly, and an error carries no bytes.
pub open spec fn extract_result_matches(
    r: Result<Vec<u8>, FirmwareFileSystemError>,
    m: Result<Seq<u8>, FirmwareFileSystemError>,
) -> bool {
    match r {
        Ok(v) => m == Ok::<Seq<u8>, FirmwareFileSystemError>(v@),
        Err(e) => m == Err::<Seq<u8>, FirmwareFileSystemError>(e),
    }
}

/// The single operation shared by all section codecs.
///
/// Implementations are stateless and side-effect-free: `spec_extract`
/// determines the outcome from the section value alone, so calling
/// `extract` twice on the same section yields identical output.
pub trait SectionExtractor: Sized {
    /// The codec's outcome on a given section, as a mathematical
    /// function.
    spec fn spec_extract(&self, s: SectionView) -> Result<Seq<u8>, FirmwareFileSystemError>;

    /// Extracts the section's decoded content into a newly allocated
    /// buffer, or reports `Unsupported` or `DataCorrupt`.
    fn extract(&self, section: &Section) -> (r: Result<Vec<u8>, FirmwareFileSystemError>)
        ensures
            extract_result_matches(r, self.spec_extract(section@)),
    ;
}

} // verus!
