//! Firmware section extraction: checksum-validating and decompressing
//! codecs for tagged firmware image sections, composed behind a single
//! capability interface, together with small helpers used around the
//! firmware core (stack-trace line parsing, a debugger transport buffer,
//! and EFI memory-type classification).

use vstd::prelude::*;

pub mod brotli;
pub mod bytes;
pub mod composite;
pub mod crc32;
pub mod efi_types;
pub mod extract;
pub mod guid;
pub mod lzma;
pub mod null;
pub mod section;
pub mod stacktrace;
pub mod text;
pub mod transport;

verus! {

/// Outcome signal of the firmware file system layer.
///
/// `Unsupported` means "this codec does not recognize the section":
/// it is the composition mechanism, not a user-facing failure.
/// `DataCorrupt` means the codec recognized the section but the payload
/// failed validation. `OutOfResources` signals resource exhaustion and is
/// kept distinct from corruption of the input.
#[derive(Debug, Clone, Copy, PartialEq, Eq, Structural)]
pub enum FirmwareFileSystemError {
    Unsupported,
    DataCorrupt,
    OutOfResources,
}

} // verus!
