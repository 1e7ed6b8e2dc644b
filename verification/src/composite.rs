//! The composite dispatcher: holds a runtime-assembled, ordered list of
//! codec instances and tries each in order. The first codec returning
//! anything other than `Unsupported` determines the final result and
//! dispatch stops immediately; if every codec declines, the dispatcher
//! itself declines. Codec identifiers are disjoint, so the order only
//! affects dispatch cost, never the outcome of a recognized section.

use vstd::prelude::*;

use crate::brotli::BrotliSectionExtractor;
use crate::crc32::Crc32SectionExtractor;
use crate::extract::{extract_result_matches, SectionExtractor};
use crate::guid::{spec_brotli_section_guid, spec_crc32_section_guid, spec_lzma_section_guid, Guid};
use crate::lzma::LzmaSectionExtractor;
use crate::null::NullSectionExtractor;
use crate::section::{Section, SectionHeaderView, SectionView};
use crate::FirmwareFileSystemError;

verus! {

/// One enabled codec instance in a dispatcher configuration.
#[derive(Debug, Clone, Copy, PartialEq, Eq, Structural)]
pub enum Extractor {
    Brotli(BrotliSectionExtractor),
    Crc32(Crc32SectionExtractor),
    Lzma(LzmaSectionExtractor),
    Null(NullSectionExtractor),
}

impl SectionExtractor for Extractor {
    open spec fn spec_extract(&self, s: SectionView) -> Result<Seq<u8>, FirmwareFileSystemError> {
        match self {
            Extractor::Brotli(e) => e.spec_extract(s),
            Extractor::Crc32(e) => e.spec_extract(s),
            Extractor::Lzma(e) => e.spec_extract(s),
            Extractor::Null(e) => e.spec_extract(s),
        }
    }

    fn extract(&self, section: &Section) -> (r: Result<Vec<u8>, FirmwareFileSystemError>)
        ensures
            extract_result_matches(r, self.spec_extract(section@)),
    {
        match self {
            Extractor::Brotli(e) => e.extract(section),
            Extractor::Crc32(e) => e.extract(section),
            Extractor::Lzma(e) => e.extract(section),
            Extractor::Null(e) => e.extract(section),
        }
    }
}

/// Outcome of trying the codecs of `list` in order on `s`: the first
/// outcome other than `Unsupported`, or `Unsupported` when every codec
/// declines (in particular for the empty list).
pub open spec fn dispatch_spec(list: Seq<Extractor>, s: SectionView) -> Result<
    Seq<u8>,
    FirmwareFileSystemError,
>
    decreases list.len(),
{
    if list.len() == 0 {
        Err(FirmwareFileSystemError::Unsupported)
    } else if list[0].spec_extract(s) == Err::<Seq<u8>, FirmwareFileSystemError>(
        FirmwareFileSystemError::Unsupported,
    ) {
        dispatch_spec(list.drop_first(), s)
    } else {
        list[0].spec_extract(s)
    }
}

/// A composite section extractor that tries an ordered list of enabled
/// codecs until one claims the section.
#[derive(Debug, Clone)]
pub struct CompositeSectionExtractor {
    extractors: Vec<Extractor>,
}

impl CompositeSectionExtractor {
    /// The dispatcher's fixed, ordered codec configuration.
    pub closed spec fn spec_extractors(&self) -> Seq<Extractor> {
        self.extractors@
    }

    /// Creates a composite section extractor with every supported codec
    /// enabled.
    pub fn new() -> (r: Self)
        ensures
            r.spec_extractors() =~= seq![
                Extractor::Brotli(BrotliSectionExtractor),
                Extractor::Crc32(Crc32SectionExtractor),
                Extractor::Lzma(LzmaSectionExtractor),
            ],
    {
        let mut extractors: Vec<Extractor> = Vec::new();
        extractors.push(Extractor::Brotli(BrotliSectionExtractor));
        extractors.push(Extractor::Crc32(Crc32SectionExtractor));
        extractors.push(Extractor::Lzma(LzmaSectionExtractor));
        CompositeSectionExtractor { extractors }
    }

    /// Creates a composite section extractor over an explicit ordered
    /// codec configuration; the empty configuration is valid and always
    /// declines.
    pub fn with_extractors(extractors: Vec<Extractor>) -> (r: Self)
        ensures
            r.spec_extractors() == extractors@,
    {
        CompositeSectionExtractor { extractors }
    }
}

impl Default for CompositeSectionExtractor {
    /// The all-codecs configuration, as `new` builds it.
    fn default() -> (r: Self)
        ensures
            r.spec_extractors() =~= seq![
                Extractor::Brotli(BrotliSectionExtractor),
                Extractor::Crc32(Crc32SectionExtractor),
                Extractor::Lzma(LzmaSectionExtractor),
            ],
    {
        Self::new()
    }
}

impl SectionExtractor for CompositeSectionExtractor {
    open spec fn spec_extract(&self, s: SectionView) -> Result<Seq<u8>, FirmwareFileSystemError> {
        dispatch_spec(self.spec_extractors(), s)
    }

    fn extract(&self, section: &Section) -> (r: Result<Vec<u8>, FirmwareFileSystemError>)
        ensures
            extract_result_matches(r, dispatch_spec(self.spec_extractors(), section@)),
    {
        let ghost list = self.extractors@;
        let n = self.extractors.len();
        proof {
            assert(list.skip(0) =~= list);
        }
        for i in 0..n
            invariant
                n == list.len(),
                self.extractors@ == list,
                dispatch_spec(list, section@) == dispatch_spec(list.skip(i as int), section@),
        {
            let e = self.extractors[i];
            let r = e.extract(section);
            proof {
                assert(list.skip(i as int).drop_first() =~= list.skip(i + 1));
                assert(list.skip(i as int)[0] == list[i as int]);
            }
            match r {
                Err(FirmwareFileSystemError::Unsupported) => {},
                other => { return other },
            }
        }
        proof {
            assert(list.skip(n as int) =~= Seq::<Extractor>::empty());
        }
        Err(FirmwareFileSystemError::Unsupported)
    }
}

/// The dispatcher declines a section exactly when every configured codec
/// individually declines it.
pub proof fn lemma_dispatch_unsupported_iff(list: Seq<Extractor>, s: SectionView)
    ensures
        dispatch_spec(list, s) == Err::<Seq<u8>, FirmwareFileSystemError>(
            FirmwareFileSystemError::Unsupported,
        ) <==> (forall|i: int|
            0 <= i < list.len() ==> list[i].spec_extract(s) == Err::<
                Seq<u8>,
                FirmwareFileSystemError,
            >(FirmwareFileSystemError::Unsupported)),
    decreases list.len(),
{
    if list.len() > 0 {
        lemma_dispatch_unsupported_iff(list.drop_first(), s);
        assert forall|i: int| 1 <= i < list.len() implies list.drop_first()[i - 1]
            == list[i] by {}
    }
}

/// When some codec claims the section, the dispatcher's outcome is
/// exactly the outcome of the first codec in list order that does;
/// codecs after it never influence the result.
pub proof fn lemma_dispatch_first_match(list: Seq<Extractor>, s: SectionView, i: int)
    requires
        0 <= i < list.len(),
        forall|j: int|
            0 <= j < i ==> list[j].spec_extract(s) == Err::<Seq<u8>, FirmwareFileSystemError>(
                FirmwareFileSystemError::Unsupported,
            ),
        list[i].spec_extract(s) != Err::<Seq<u8>, FirmwareFileSystemError>(
            FirmwareFileSystemError::Unsupported,
        ),
    ensures
        dispatch_spec(list, s) == list[i].spec_extract(s),
    decreases i,
{
    if i > 0 {
        lemma_dispatch_first_match(list.drop_first(), s, i - 1);
    }
}

/// Whether some supported codec owns this identifier.
pub open spec fn spec_recognized_guid(g: Guid) -> bool {
    g == spec_crc32_section_guid() || g == spec_lzma_section_guid() || g
        == spec_brotli_section_guid()
}

/// A section whose header carries no identifier, or an identifier that
/// no supported codec owns, is declined by every codec and hence by any
/// dispatcher configuration.
pub proof fn lemma_unrecognized_guid_unsupported(list: Seq<Extractor>, s: SectionView)
    requires
        match s.header {
            SectionHeaderView::GuidDefined { guid, .. } => !spec_recognized_guid(guid),
            SectionHeaderView::Opaque => true,
        },
    ensures
        forall|i: int|
            0 <= i < list.len() ==> list[i].spec_extract(s) == Err::<
                Seq<u8>,
                FirmwareFileSystemError,
            >(FirmwareFileSystemError::Unsupported),
        dispatch_spec(list, s) == Err::<Seq<u8>, FirmwareFileSystemError>(
            FirmwareFileSystemError::Unsupported,
        ),
{
    lemma_dispatch_unsupported_iff(list, s);
}

} // verus!
