//! Tests for the validated EFI memory-type wrapper.

use ffs_extractors::efi_types::{
    EfiError, EfiMemoryType, BOOT_SERVICES_DATA, CONVENTIONAL_MEMORY, RESERVED_MEMORY_TYPE,
    UNACCEPTED_MEMORY_TYPE,
};

#[test]
fn test_from_efi_architectural_types() {
    assert_eq!(
        EfiMemoryType::from_efi(RESERVED_MEMORY_TYPE),
        Ok(EfiMemoryType::ReservedMemoryType)
    );
    assert_eq!(EfiMemoryType::from_efi(BOOT_SERVICES_DATA), Ok(EfiMemoryType::BootServicesData));
    assert_eq!(
        EfiMemoryType::from_efi(CONVENTIONAL_MEMORY),
        Ok(EfiMemoryType::ConventionalMemory)
    );
    assert_eq!(
        EfiMemoryType::from_efi(UNACCEPTED_MEMORY_TYPE),
        Ok(EfiMemoryType::UnacceptedMemoryType)
    );
}

#[test]
fn test_from_efi_rejects_gap_values() {
    assert_eq!(EfiMemoryType::from_efi(0x10), Err(EfiError::InvalidParameter));
    assert_eq!(EfiMemoryType::from_efi(0x6FFF_FFFF), Err(EfiError::InvalidParameter));
}

#[test]
fn test_from_efi_custom_ranges_roundtrip() {
    let oem = EfiMemoryType::from_efi(0x7000_0001).expect("OEM range should validate");
    assert!(matches!(oem, EfiMemoryType::OemMemoryType(_)));
    assert_eq!(u32::from(oem), 0x7000_0001);

    let os = EfiMemoryType::from_efi(0x8123_4567).expect("OS range should validate");
    assert!(matches!(os, EfiMemoryType::OsMemoryType(_)));
    assert_eq!(u32::from(os), 0x8123_4567);
}

#[test]
fn test_to_efi_roundtrip_architectural() {
    for raw in 0u32..=0xF {
        let typed = EfiMemoryType::from_efi(raw).expect("architectural type should validate");
        assert_eq!(u32::from(typed), raw);
    }
}
