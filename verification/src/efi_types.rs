//! Validated wrappers for the EFI memory-region classification codes.
//!
//! The firmware interface describes memory regions with a 32-bit code:
//! the architectural types occupy the low values, while two high ranges
//! are reserved for OEM- and OS-defined custom types. `from_efi`
//! validates a raw code into a typed value; the reverse conversion is
//! total.

use vstd::prelude::*;

verus! {

/// The error signal of the firmware interface wrappers.
#[derive(Debug, Clone, Copy, PartialEq, Eq, Structural)]
pub enum EfiError {
    InvalidParameter,
}

pub const RESERVED_MEMORY_TYPE: u32 = 0x00000000;

pub const LOADER_CODE: u32 = 0x00000001;

pub const LOADER_DATA: u32 = 0x00000002;

pub const BOOT_SERVICES_CODE: u32 = 0x00000003;

pub const BOOT_SERVICES_DATA: u32 = 0x00000004;

pub const RUNTIME_SERVICES_CODE: u32 = 0x00000005;

pub const RUNTIME_SERVICES_DATA: u32 = 0x00000006;

pub const CONVENTIONAL_MEMORY: u32 = 0x00000007;

pub const UNUSABLE_MEMORY: u32 = 0x00000008;

pub const ACPI_RECLAIM_MEMORY: u32 = 0x00000009;

pub const ACPI_MEMORY_NVS: u32 = 0x0000000a;

pub const MEMORY_MAPPED_IO: u32 = 0x0000000b;

pub const MEMORY_MAPPED_IO_PORT_SPACE: u32 = 0x0000000c;

pub const PAL_CODE: u32 = 0x0000000d;

pub const PERSISTENT_MEMORY: u32 = 0x0000000e;

pub const UNACCEPTED_MEMORY_TYPE: u32 = 0x0000000f;

/// A custom memory-region code, guaranteed to lie in one of the two
/// ranges reserved for OEM- and OS-defined types; it can only be
/// obtained through `EfiMemoryType::from_efi`, which checks the range.
#[derive(Debug, Clone, Copy, PartialEq, Eq, Structural)]
pub struct CustomMemoryType {
    memory_type: u32,
}

impl CustomMemoryType {
    /// The raw code this custom type wraps.
    pub closed spec fn spec_value(&self) -> u32 {
        self.memory_type
    }
}

/// The OEM-defined custom classification wrapping `value`.
pub closed spec fn spec_oem_memory_type(value: u32) -> EfiMemoryType {
    EfiMemoryType::OemMemoryType(CustomMemoryType { memory_type: value })
}

/// The OS-defined custom classification wrapping `value`.
pub closed spec fn spec_os_memory_type(value: u32) -> EfiMemoryType {
    EfiMemoryType::OsMemoryType(CustomMemoryType { memory_type: value })
}

/// A custom classification wraps exactly the code it was built from.
pub proof fn lemma_custom_memory_type_value(value: u32)
    ensures
        spec_oem_memory_type(value) matches EfiMemoryType::OemMemoryType(c) && c.spec_value()
            == value,
        spec_os_memory_type(value) matches EfiMemoryType::OsMemoryType(c) && c.spec_value()
            == value,
{
}

/// A validated EFI memory-region classification.
#[derive(Debug, Clone, Copy, PartialEq, Eq, Structural)]
pub enum EfiMemoryType {
    /// Reserved memory for platform uses.
    ReservedMemoryType,
    /// The code portions of a loaded application.
    LoaderCode,
    /// The data portions of a loaded application.
    LoaderData,
    /// The code portions of a loaded boot-services driver.
    BootServicesCode,
    /// The data portions of a loaded boot-services driver.
    BootServicesData,
    /// The code portions of a loaded runtime-services driver.
    RuntimeServicesCode,
    /// The data portions of a loaded runtime-services driver.
    RuntimeServicesData,
    /// Free (unallocated) memory.
    ConventionalMemory,
    /// Memory in which errors have been detected.
    UnusableMemory,
    /// Memory reserved for runtime ACPI non-volatile storage.
    ACPIReclaimMemory,
    /// Address space reserved for use by the firmware.
    ACPIMemoryNVS,
    /// Memory-mapped IO region.
    MemoryMappedIO,
    /// Memory-mapped IO region used to translate memory cycles to IO
    /// cycles.
    MemoryMappedIOPortSpace,
    /// Address space reserved for processor firmware code.
    PalCode,
    /// Conventional memory with byte-addressable non-volatility.
    PersistentMemory,
    /// Memory not yet accepted by the memory-isolation technology.
    UnacceptedMemoryType,
    /// An OEM-defined custom type, in the range 0x7000_0000..=0x7FFF_FFFF.
    OemMemoryType(CustomMemoryType),
    /// An OS-defined custom type, in the range 0x8000_0000..=0xFFFF_FFFF.
    OsMemoryType(CustomMemoryType),
}

/// The typed classification a raw 32-bit code validates to, when it
/// names an architectural type or falls in a custom range.
pub open spec fn spec_from_efi(value: u32) -> Result<EfiMemoryType, EfiError> {
    if value == RESERVED_MEMORY_TYPE {
        Ok(EfiMemoryType::ReservedMemoryType)
    } else if value == LOADER_CODE {
        Ok(EfiMemoryType::LoaderCode)
    } else if value == LOADER_DATA {
        Ok(EfiMemoryType::LoaderData)
    } else if value == BOOT_SERVICES_CODE {
        Ok(EfiMemoryType::BootServicesCode)
    } else if value == BOOT_SERVICES_DATA {
        Ok(EfiMemoryType::BootServicesData)
    } else if value == RUNTIME_SERVICES_CODE {
        Ok(EfiMemoryType::RuntimeServicesCode)
    } else if value == RUNTIME_SERVICES_DATA {
        Ok(EfiMemoryType::RuntimeServicesData)
    } else if value == CONVENTIONAL_MEMORY {
        Ok(EfiMemoryType::ConventionalMemory)
    } else if value == UNUSABLE_MEMORY {
        Ok(EfiMemoryType::UnusableMemory)
    } else if value == ACPI_RECLAIM_MEMORY {
        Ok(EfiMemoryType::ACPIReclaimMemory)
    } else if value == ACPI_MEMORY_NVS {
        Ok(EfiMemoryType::ACPIMemoryNVS)
    } else if value == MEMORY_MAPPED_IO {
        Ok(EfiMemoryType::MemoryMappedIO)
    } else if value == MEMORY_MAPPED_IO_PORT_SPACE {
        Ok(EfiMemoryType::MemoryMappedIOPortSpace)
    } else if value == PAL_CODE {
        Ok(EfiMemoryType::PalCode)
    } else if value == PERSISTENT_MEMORY {
        Ok(EfiMemoryType::PersistentMemory)
    } else if value == UNACCEPTED_MEMORY_TYPE {
        Ok(EfiMemoryType::UnacceptedMemoryType)
    } else if 0x7000_0000 <= value && value <= 0x7FFF_FFFF {
        Ok(spec_oem_memory_type(value))
    } else if 0x8000_0000 <= value {
        Ok(spec_os_memory_type(value))
    } else {
        Err(EfiError::InvalidParameter)
    }
}

/// The raw 32-bit code of a typed classification.
pub open spec fn spec_to_efi(value: EfiMemoryType) -> u32 {
    match value {
        EfiMemoryType::ReservedMemoryType => RESERVED_MEMORY_TYPE,
        EfiMemoryType::LoaderCode => LOADER_CODE,
        EfiMemoryType::LoaderData => LOADER_DATA,
        EfiMemoryType::BootServicesCode => BOOT_SERVICES_CODE,
        EfiMemoryType::BootServicesData => BOOT_SERVICES_DATA,
        EfiMemoryType::RuntimeServicesCode => RUNTIME_SERVICES_CODE,
        EfiMemoryType::RuntimeServicesData => RUNTIME_SERVICES_DATA,
        EfiMemoryType::ConventionalMemory => CONVENTIONAL_MEMORY,
        EfiMemoryType::UnusableMemory => UNUSABLE_MEMORY,
        EfiMemoryType::ACPIReclaimMemory => ACPI_RECLAIM_MEMORY,
        EfiMemoryType::ACPIMemoryNVS => ACPI_MEMORY_NVS,
        EfiMemoryType::MemoryMappedIO => MEMORY_MAPPED_IO,
        EfiMemoryType::MemoryMappedIOPortSpace => MEMORY_MAPPED_IO_PORT_SPACE,
        EfiMemoryType::PalCode => PAL_CODE,
        EfiMemoryType::PersistentMemory => PERSISTENT_MEMORY,
        EfiMemoryType::UnacceptedMemoryType => UNACCEPTED_MEMORY_TYPE,
        EfiMemoryType::OemMemoryType(custom) => custom.spec_value(),
        EfiMemoryType::OsMemoryType(custom) => custom.spec_value(),
    }
}

impl EfiMemoryType {
    /// Validates a raw memory-type code, rejecting the gap between the
    /// architectural types and the custom ranges.
    pub fn from_efi(value: u32) -> (r: Result<EfiMemoryType, EfiError>)
        ensures
            r == spec_from_efi(value),
            r matches Ok(t) ==> spec_to_efi(t) == value,
    {
        let memory_type = if value == RESERVED_MEMORY_TYPE {
            EfiMemoryType::ReservedMemoryType
        } else if value == LOADER_CODE {
            EfiMemoryType::LoaderCode
        } else if value == LOADER_DATA {
            EfiMemoryType::LoaderData
        } else if value == BOOT_SERVICES_CODE {
            EfiMemoryType::BootServicesCode
        } else if value == BOOT_SERVICES_DATA {
            EfiMemoryType::BootServicesData
        } else if value == RUNTIME_SERVICES_CODE {
            EfiMemoryType::RuntimeServicesCode
        } else if value == RUNTIME_SERVICES_DATA {
            EfiMemoryType::RuntimeServicesData
        } else if value == CONVENTIONAL_MEMORY {
            EfiMemoryType::ConventionalMemory
        } else if value == UNUSABLE_MEMORY {
            EfiMemoryType::UnusableMemory
        } else if value == ACPI_RECLAIM_MEMORY {
            EfiMemoryType::ACPIReclaimMemory
        } else if value == ACPI_MEMORY_NVS {
            EfiMemoryType::ACPIMemoryNVS
        } else if value == MEMORY_MAPPED_IO {
            EfiMemoryType::MemoryMappedIO
        } else if value == MEMORY_MAPPED_IO_PORT_SPACE {
            EfiMemoryType::MemoryMappedIOPortSpace
        } else if value == PAL_CODE {
            EfiMemoryType::PalCode
        } else if value == PERSISTENT_MEMORY {
            EfiMemoryType::PersistentMemory
        } else if value == UNACCEPTED_MEMORY_TYPE {
            EfiMemoryType::UnacceptedMemoryType
        } else if 0x7000_0000 <= value && value <= 0x7FFF_FFFF {
            EfiMemoryType::OemMemoryType(CustomMemoryType { memory_type: value })
        } else if 0x8000_0000 <= value {
            EfiMemoryType::OsMemoryType(CustomMemoryType { memory_type: value })
        } else {
            return Err(EfiError::InvalidParameter);
        };
        Ok(memory_type)
    }
}

impl From<EfiMemoryType> for u32 {
    /// The raw code of a typed classification; inverse of `from_efi` on
    /// every validated value.
    fn from(value: EfiMemoryType) -> (r: u32)
        ensures
            r == spec_to_efi(value),
    {
        match value {
            EfiMemoryType::ReservedMemoryType => RESERVED_MEMORY_TYPE,
            EfiMemoryType::LoaderCode => LOADER_CODE,
            EfiMemoryType::LoaderData => LOADER_DATA,
            EfiMemoryType::BootServicesCode => BOOT_SERVICES_CODE,
            EfiMemoryType::BootServicesData => BOOT_SERVICES_DATA,
            EfiMemoryType::RuntimeServicesCode => RUNTIME_SERVICES_CODE,
            EfiMemoryType::RuntimeServicesData => RUNTIME_SERVICES_DATA,
            EfiMemoryType::ConventionalMemory => CONVENTIONAL_MEMORY,
            EfiMemoryType::UnusableMemory => UNUSABLE_MEMORY,
            EfiMemoryType::ACPIReclaimMemory => ACPI_RECLAIM_MEMORY,
            EfiMemoryType::ACPIMemoryNVS => ACPI_MEMORY_NVS,
            EfiMemoryType::MemoryMappedIO => MEMORY_MAPPED_IO,
            EfiMemoryType::MemoryMappedIOPortSpace => MEMORY_MAPPED_IO_PORT_SPACE,
            EfiMemoryType::PalCode => PAL_CODE,
            EfiMemoryType::PersistentMemory => PERSISTENT_MEMORY,
            EfiMemoryType::UnacceptedMemoryType => UNACCEPTED_MEMORY_TYPE,
            EfiMemoryType::OemMemoryType(custom) => custom.memory_type,
            EfiMemoryType::OsMemoryType(custom) => custom.memory_type,
        }
    }
}

impl vstd::std_specs::convert::FromSpecImpl<EfiMemoryType> for u32 {
    open spec fn obeys_from_spec() -> bool {
        true
    }

    open spec fn from_spec(value: EfiMemoryType) -> u32 {
        spec_to_efi(value)
    }
}

/// Validation and the reverse conversion are mutually inverse: every
/// code that validates converts back to itself, and every typed value
/// obtained from a code validates its own code back to itself.
pub proof fn lemma_memory_type_roundtrip(value: u32)
    requires
        spec_from_efi(value) is Ok,
    ensures
        spec_to_efi(spec_from_efi(value)->Ok_0) == value,
{
}

} // verus!
