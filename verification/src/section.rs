//! The section data model consumed by the extraction codecs.
//!
//! A `Section` is produced upstream by the firmware-volume container
//! parser, which this subsystem treats as an external collaborator: the
//! header is already split from the content here. The only header variant
//! this subsystem interprets is the type-identified one; everything else
//! is opaque. The header's declared content length is expected to match
//! the actual content length when extraction begins; if it does not, the
//! content accessor reports corruption instead of crashing.

use vstd::prelude::*;

use crate::guid::Guid;
use crate::FirmwareFileSystemError;

verus! {

/// The fixed leading fields of a type-identified section header.
#[derive(Debug, Clone, Copy, PartialEq, Eq, Structural)]
pub struct GuidDefined {
    /// The 16-byte identifier of the algorithm needed to process the
    /// section's payload.
    pub section_definition_guid: Guid,
    /// Offset of the payload from the start of the on-image section;
    /// informational here, never interpreted by the codecs.
    pub data_offset: u16,
    /// Attribute bits of the on-image header; informational here.
    pub attributes: u16,
}

/// A section header. Type-identified headers carry the identifier block,
/// the variable-length algorithm-specific header-extension bytes, and the
/// declared content length; all other header kinds are opaque to this
/// subsystem.
#[derive(Debug)]
pub enum SectionHeader {
    GuidDefined(GuidDefined, Vec<u8>, u32),
    Opaque,
}

/// Mathematical model of a section header.
pub ghost enum SectionHeaderView {
    GuidDefined { guid: Guid, guid_data: Seq<u8>, declared_len: nat },
    Opaque,
}

impl View for SectionHeader {
    type V = SectionHeaderView;

    open spec fn view(&self) -> SectionHeaderView {
        match self {
            SectionHeader::GuidDefined(gd, guid_data, declared_len) => {
                SectionHeaderView::GuidDefined {
                    guid: gd.section_definition_guid,
                    guid_data: guid_data@,
                    declared_len: *declared_len as nat,
                }
            },
            SectionHeader::Opaque => SectionHeaderView::Opaque,
        }
    }
}

/// Mathematical model of a section: its header and the raw content bytes.
pub ghost struct SectionView {
    pub header: SectionHeaderView,
    pub content: Seq<u8>,
}

impl SectionView {
    /// The content bytes a codec may work on: available only when the
    /// header's declared length agrees with the actual content length,
    /// corrupt otherwise.
    pub open spec fn usable_content(self) -> Result<Seq<u8>, FirmwareFileSystemError> {
        match self.header {
            SectionHeaderView::GuidDefined { declared_len, .. } => {
                if self.content.len() == declared_len {
                    Ok(self.content)
                } else {
                    Err(FirmwareFileSystemError::DataCorrupt)
                }
            },
            SectionHeaderView::Opaque => Ok(self.content),
        }
    }
}

/// A tagged chunk of a firmware image payload: a header plus the raw
/// content bytes it describes.
#[derive(Debug)]
pub struct Section {
    header: SectionHeader,
    data: Vec<u8>,
}

impl View for Section {
    type V = SectionView;

    closed spec fn view(&self) -> SectionView {
        SectionView { header: self.header@, content: self.data@ }
    }
}

impl Section {
    /// Builds a section after checking that a type-identified header's
    /// declared content length agrees with the data handed in; a
    /// disagreement is reported as corruption.
    pub fn new_from_header_with_data(header: SectionHeader, data: Vec<u8>) -> (r: Result<
        Section,
        FirmwareFileSystemError,
    >)
        ensures
            match r {
                Ok(s) => s@ == (SectionView { header: header@, content: data@ })
                    && s@.usable_content() == Ok::<Seq<u8>, FirmwareFileSystemError>(data@),
                Err(e) => e == FirmwareFileSystemError::DataCorrupt && (SectionView {
                    header: header@,
                    content: data@,
                }).usable_content() is Err,
            },
    {
        let ok = match &header {
            SectionHeader::GuidDefined(_, _, declared_len) => *declared_len as usize == data.len(),
            SectionHeader::Opaque => true,
        };
        if ok {
            Ok(Section { header, data })
        } else {
            Err(FirmwareFileSystemError::DataCorrupt)
        }
    }

    /// Builds a section without any consistency check between the header
    /// and the data, as an upstream parser that mis-reports lengths
    /// might.
    pub fn new_unchecked(header: SectionHeader, data: Vec<u8>) -> (r: Section)
        ensures
            r@ == (SectionView { header: header@, content: data@ }),
    {
        Section { header, data }
    }

    /// The section's header.
    pub fn header(&self) -> (h: &SectionHeader)
        ensures
            h@ == self@.header,
    {
        &self.header
    }

    /// The section's content bytes, if the declared content length agrees
    /// with the backing storage; a corruption error otherwise.
    pub fn try_content_as_slice(&self) -> (r: Result<&[u8], FirmwareFileSystemError>)
        ensures
            match r {
                Ok(c) => self@.usable_content() == Ok::<Seq<u8>, FirmwareFileSystemError>(c@)
                    && c@ == self@.content,
                Err(e) => self@.usable_content() == Err::<Seq<u8>, FirmwareFileSystemError>(e),
            },
    {
        let ok = match &self.header {
            SectionHeader::GuidDefined(_, _, declared_len) => *declared_len as usize
                == self.data.len(),
            SectionHeader::Opaque => true,
        };
        if ok {
            Ok(self.data.as_slice())
        } else {
            Err(FirmwareFileSystemError::DataCorrupt)
        }
    }
}

} // verus!
