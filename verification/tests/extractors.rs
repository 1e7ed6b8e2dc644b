//! Tests for the section codecs and the composite dispatcher.

use ffs_extractors::bytes::{le_bytes_of_u32, read_le_u32, read_le_u64};
use ffs_extractors::composite::{CompositeSectionExtractor, Extractor};
use ffs_extractors::crc32::Crc32SectionExtractor;
use ffs_extractors::extract::SectionExtractor;
use ffs_extractors::guid::{brotli_section_guid, crc32_section_guid, lzma_section_guid, Guid};
use ffs_extractors::lzma::LzmaSectionExtractor;
use ffs_extractors::null::NullSectionExtractor;
use ffs_extractors::section::{GuidDefined, Section, SectionHeader};
use ffs_extractors::FirmwareFileSystemError;

/// Helper to create a checksum-verified section for testing.
fn create_crc32_section(content: &[u8], guid_data: Vec<u8>) -> Section {
    let guid_header = GuidDefined {
        section_definition_guid: crc32_section_guid(),
        data_offset: (core::mem::size_of::<GuidDefined>() + 4 + guid_data.len()) as u16,
        attributes: 0x01,
    };
    let header = SectionHeader::GuidDefined(guid_header, guid_data, content.len() as u32);
    Section::new_from_header_with_data(header, content.to_vec()).expect("Failed to create test section")
}

/// Helper to create an LZMA-compressed section for testing.
fn create_lzma_section(compressed_data: &[u8]) -> Section {
    let guid_header = GuidDefined {
        section_definition_guid: lzma_section_guid(),
        data_offset: (core::mem::size_of::<GuidDefined>() + 4) as u16,
        attributes: 0x01,
    };
    let header = SectionHeader::GuidDefined(guid_header, vec![], compressed_data.len() as u32);
    Section::new_from_header_with_data(header, compressed_data.to_vec()).expect("Failed to create test section")
}

/// Helper to create a size-prefixed compressed section for testing: the
/// payload is the declared output size, a zero scratch size, and the
/// compressed stream.
fn create_brotli_section(payload: &[u8], out_size: u64) -> Section {
    let scratch_size = 0u64;
    let mut content = Vec::new();
    content.extend_from_slice(&out_size.to_le_bytes());
    content.extend_from_slice(&scratch_size.to_le_bytes());
    content.extend_from_slice(payload);
    let guid_header = GuidDefined {
        section_definition_guid: brotli_section_guid(),
        data_offset: (core::mem::size_of::<GuidDefined>() + 4) as u16,
        attributes: 0x01,
    };
    let header = SectionHeader::GuidDefined(guid_header, vec![], content.len() as u32);
    Section::new_from_header_with_data(header, content).expect("Failed to create test section")
}

const HELLO_WORLD_LZMA: &[u8] = &[
    0x5D, 0x00, 0x00, 0x80, 0x00, 0xFF, 0xFF, 0xFF, 0xFF, 0xFF, 0xFF, 0xFF, 0xFF, 0x00, 0x24,
    0x19, 0x49, 0x98, 0x6F, 0x16, 0x02, 0x89, 0x0A, 0x98, 0xE7, 0x3F, 0xA8, 0xC3, 0x95, 0x48,
    0x4D, 0xFF, 0xFF, 0x75, 0xF0, 0x00, 0x00,
];

const HELLO_WORLD_BROTLI: &[u8] = &[
    0x21, 0x30, 0x00, 0x04, 0x48, 0x65, 0x6C, 0x6C, 0x6F, 0x2C, 0x20, 0x57, 0x6F, 0x72, 0x6C,
    0x64, 0x21, 0x03,
];

#[test]
fn test_crc32_extractor_valid() {
    let content = b"Hello, CRC32!";
    let crc32 = crc32fast::hash(content);
    let section = create_crc32_section(content, crc32.to_le_bytes().to_vec());

    let extractor = Crc32SectionExtractor::new();
    let result = extractor.extract(&section).expect("CRC32 extraction should succeed");

    assert_eq!(result, content);
}

#[test]
fn test_crc32_extractor_invalid_checksum() {
    let content = b"Hello, CRC32!";
    let wrong_crc32 = 0xDEADBEEFu32; // Intentionally wrong CRC
    let section = create_crc32_section(content, wrong_crc32.to_le_bytes().to_vec());

    let extractor = Crc32SectionExtractor::new();
    let result = extractor.extract(&section);

    assert!(matches!(result, Err(FirmwareFileSystemError::DataCorrupt)));
}

#[test]
fn test_crc32_extractor_empty_content() {
    let content = b"";
    let crc32 = crc32fast::hash(content);
    assert_eq!(crc32, 0);
    let section = create_crc32_section(content, crc32.to_le_bytes().to_vec());

    let extractor = Crc32SectionExtractor::new();
    let result = extractor.extract(&section).expect("Empty content with valid CRC should succeed");

    assert_eq!(result, content);
}

#[test]
fn test_crc32_extractor_unsupported_guid() {
    let wrong_guid =
        Guid::from_fields(0x12345678, 0x1234, 0x5678, 0x12, 0x34, &[0x56, 0x78, 0x9A, 0xBC, 0xDE, 0xF0]);
    let content = b"Test data";

    let guid_header = GuidDefined {
        section_definition_guid: wrong_guid,
        data_offset: (core::mem::size_of::<GuidDefined>() + 4 + 4) as u16,
        attributes: 0x01,
    };

    let crc32_bytes = crc32fast::hash(content).to_le_bytes().to_vec();
    let header = SectionHeader::GuidDefined(guid_header, crc32_bytes, content.len() as u32);
    let section =
        Section::new_from_header_with_data(header, content.to_vec()).expect("Failed to create test section");

    let extractor = Crc32SectionExtractor::new();
    let result = extractor.extract(&section);

    assert!(matches!(result, Err(FirmwareFileSystemError::Unsupported)));
}

#[test]
fn test_crc32_extractor_short_checksum_field() {
    let content = b"Hello, CRC32!";
    let section = create_crc32_section(content, vec![0x12, 0x34, 0x56]);

    let extractor = Crc32SectionExtractor::new();
    let result = extractor.extract(&section);

    assert!(matches!(result, Err(FirmwareFileSystemError::DataCorrupt)));
}

#[test]
fn test_crc32_extractor_length_mismatch() {
    let content = b"Hello, CRC32!";
    let crc32 = crc32fast::hash(content);
    let guid_header = GuidDefined {
        section_definition_guid: crc32_section_guid(),
        data_offset: 0,
        attributes: 0x01,
    };
    // Declared length disagrees with the actual content length.
    let header = SectionHeader::GuidDefined(guid_header, crc32.to_le_bytes().to_vec(), 7);
    let section = Section::new_unchecked(header, content.to_vec());

    let extractor = Crc32SectionExtractor::new();
    let result = extractor.extract(&section);

    assert!(matches!(result, Err(FirmwareFileSystemError::DataCorrupt)));
}

#[test]
fn test_lzma_extractor_valid() {
    let section = create_lzma_section(HELLO_WORLD_LZMA);
    let extractor = LzmaSectionExtractor::new();
    let result = extractor.extract(&section).expect("LZMA extraction should succeed");

    assert_eq!(result, b"Hello, World!");
}

#[test]
fn test_lzma_extractor_unknown_size() {
    // LZMA data with unknown unpacked size (0xFFFFFFFFFFFFFFFF)
    let lzma_compressed_data: &[u8] = &[
        0x5d, 0x00, 0x00, 0x08, 0x00, // LZMA properties
        0xff, 0xff, 0xff, 0xff, 0xff, 0xff, 0xff, 0xff, // Unknown unpacked size
        0x00, 0x06, 0x54, 0x65, 0x73, 0x74, 0x00, // Minimal compressed payload
    ];

    let section = create_lzma_section(lzma_compressed_data);
    let extractor = LzmaSectionExtractor::new();
    // Should succeed even with unknown size (vector grows dynamically)
    let result = extractor.extract(&section);

    // Result depends on whether the compressed data is valid
    assert!(result.is_ok() || matches!(result, Err(FirmwareFileSystemError::DataCorrupt)));
}

#[test]
fn test_lzma_extractor_invalid_data() {
    // Invalid LZMA data (too short / corrupt)
    let invalid_data: &[u8] = &[0x00, 0x01, 0x02, 0x03];

    let section = create_lzma_section(invalid_data);
    let extractor = LzmaSectionExtractor::new();
    let result = extractor.extract(&section);

    assert!(matches!(result, Err(FirmwareFileSystemError::DataCorrupt)));
}

#[test]
fn test_lzma_extractor_unsupported_guid() {
    let wrong_guid =
        Guid::from_fields(0x12345678, 0x1234, 0x5678, 0x12, 0x34, &[0x56, 0x78, 0x9A, 0xBC, 0xDE, 0xF0]);
    let dummy_data = b"Dummy data";

    let guid_header = GuidDefined {
        section_definition_guid: wrong_guid,
        data_offset: (core::mem::size_of::<GuidDefined>() + 4) as u16,
        attributes: 0x01,
    };

    let header = SectionHeader::GuidDefined(guid_header, vec![], dummy_data.len() as u32);
    let section =
        Section::new_from_header_with_data(header, dummy_data.to_vec()).expect("Failed to create test section");

    let extractor = LzmaSectionExtractor::new();
    let result = extractor.extract(&section);

    assert!(matches!(result, Err(FirmwareFileSystemError::Unsupported)));
}

#[test]
fn test_brotli_extractor_valid() {
    let section = create_brotli_section(HELLO_WORLD_BROTLI, 13);
    let extractor = ffs_extractors::brotli::BrotliSectionExtractor::new();
    let result = extractor.extract(&section).expect("Brotli extraction should succeed");

    assert_eq!(result, b"Hello, World!");
}

#[test]
fn test_brotli_extractor_size_mismatch() {
    // Correct stream but a wrong declared output size must be corrupt.
    let section = create_brotli_section(HELLO_WORLD_BROTLI, 12);
    let extractor = ffs_extractors::brotli::BrotliSectionExtractor::new();
    let result = extractor.extract(&section);

    assert!(matches!(result, Err(FirmwareFileSystemError::DataCorrupt)));
}

#[test]
fn test_brotli_extractor_truncated_payload() {
    // Fewer than the 16 layout bytes.
    let guid_header = GuidDefined {
        section_definition_guid: brotli_section_guid(),
        data_offset: 0,
        attributes: 0x01,
    };
    let content = vec![0u8; 10];
    let header = SectionHeader::GuidDefined(guid_header, vec![], content.len() as u32);
    let section = Section::new_from_header_with_data(header, content).expect("Failed to create test section");

    let extractor = ffs_extractors::brotli::BrotliSectionExtractor::new();
    let result = extractor.extract(&section);

    assert!(matches!(result, Err(FirmwareFileSystemError::DataCorrupt)));
}

#[test]
fn test_composite_extracts_crc32() {
    let content = b"Test CRC32 content";
    let crc32 = crc32fast::hash(content);
    let section = create_crc32_section(content, crc32.to_le_bytes().to_vec());

    let extractor = CompositeSectionExtractor::default();
    let result = extractor.extract(&section).expect("Should extract CRC32 section");

    assert_eq!(result, content);
}

#[test]
fn test_composite_extracts_brotli() {
    // Pre-compressed "Hello, World!" using Brotli
    let section = create_brotli_section(HELLO_WORLD_BROTLI, 13);
    let extractor = CompositeSectionExtractor::default();
    let result = extractor.extract(&section);
    assert!(result.is_ok());
    let result = result.unwrap();
    assert_eq!(result, b"Hello, World!");
}

#[test]
fn test_composite_extracts_lzma() {
    // Pre-compressed "Hello, World!" using LZMA
    let section = create_lzma_section(HELLO_WORLD_LZMA);
    let extractor = CompositeSectionExtractor::default();
    let result = extractor.extract(&section).expect("LZMA extraction should succeed");

    assert_eq!(result, b"Hello, World!");
}

#[test]
fn test_composite_unrecognized_guid_unsupported() {
    let unrelated_guid =
        Guid::from_fields(0xDEADBEEF, 0xAAAA, 0xBBBB, 0xCC, 0xDD, &[0x01, 0x02, 0x03, 0x04, 0x05, 0x06]);
    let guid_header =
        GuidDefined { section_definition_guid: unrelated_guid, data_offset: 0, attributes: 0x01 };
    let content = b"whatever bytes";
    let header = SectionHeader::GuidDefined(guid_header, vec![], content.len() as u32);
    let section = Section::new_from_header_with_data(header, content.to_vec()).unwrap();

    for extractor in [
        Extractor::Brotli(ffs_extractors::brotli::BrotliSectionExtractor::new()),
        Extractor::Crc32(Crc32SectionExtractor::new()),
        Extractor::Lzma(LzmaSectionExtractor::new()),
        Extractor::Null(NullSectionExtractor::new()),
    ] {
        assert!(matches!(extractor.extract(&section), Err(FirmwareFileSystemError::Unsupported)));
    }

    let composite = CompositeSectionExtractor::default();
    assert!(matches!(composite.extract(&section), Err(FirmwareFileSystemError::Unsupported)));
}

#[test]
fn test_composite_short_circuits_on_corrupt() {
    // The checksum codec claims the section and reports corruption; the
    // dispatcher must hand that through rather than try further codecs.
    let content = b"Hello, CRC32!";
    let section = create_crc32_section(content, 0xDEADBEEFu32.to_le_bytes().to_vec());

    let composite = CompositeSectionExtractor::default();
    assert!(matches!(composite.extract(&section), Err(FirmwareFileSystemError::DataCorrupt)));
}

#[test]
fn test_composite_empty_configuration() {
    let content = b"Hello, CRC32!";
    let crc32 = crc32fast::hash(content);
    let section = create_crc32_section(content, crc32.to_le_bytes().to_vec());

    let composite = CompositeSectionExtractor::with_extractors(Vec::new());
    assert!(matches!(composite.extract(&section), Err(FirmwareFileSystemError::Unsupported)));
}

#[test]
fn test_composite_configured_order() {
    // A configuration without the checksum codec declines a checksum
    // section even though the full configuration accepts it.
    let content = b"Hello, CRC32!";
    let crc32 = crc32fast::hash(content);
    let section = create_crc32_section(content, crc32.to_le_bytes().to_vec());

    let composite = CompositeSectionExtractor::with_extractors(vec![
        Extractor::Lzma(LzmaSectionExtractor::new()),
        Extractor::Null(NullSectionExtractor::new()),
    ]);
    assert!(matches!(composite.extract(&section), Err(FirmwareFileSystemError::Unsupported)));

    let composite = CompositeSectionExtractor::with_extractors(vec![
        Extractor::Null(NullSectionExtractor::new()),
        Extractor::Crc32(Crc32SectionExtractor::new()),
    ]);
    assert_eq!(composite.extract(&section).unwrap(), content);
}

#[test]
fn test_null_extractor_always_unsupported() {
    let content = b"anything";
    let crc32 = crc32fast::hash(content);
    let section = create_crc32_section(content, crc32.to_le_bytes().to_vec());

    let extractor = NullSectionExtractor::new();
    assert!(matches!(extractor.extract(&section), Err(FirmwareFileSystemError::Unsupported)));

    let opaque = Section::new_unchecked(SectionHeader::Opaque, b"raw".to_vec());
    assert!(matches!(extractor.extract(&opaque), Err(FirmwareFileSystemError::Unsupported)));
}

#[test]
fn test_le_byte_fields() {
    let v = le_bytes_of_u32(0xDEADBEEF);
    assert_eq!(v, vec![0xEF, 0xBE, 0xAD, 0xDE]);
    assert_eq!(read_le_u32(&v, 0), 0xDEADBEEF);

    let eight = [0x01u8, 0x02, 0x03, 0x04, 0x05, 0x06, 0x07, 0x08];
    assert_eq!(read_le_u64(&eight, 0), 0x0807060504030201);
}
