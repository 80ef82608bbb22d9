//! Fixed geometry of both save-file layouts: section sizes, absolute
//! offsets, the magic pattern and the marker byte values. Every other
//! module takes its offsets from here.

use vstd::prelude::*;

verus! {

/// Total size of a console-layout save file.
pub const PS4_SIZE: usize = 0x12A200;

/// Total size of a PC-editable (editor-layout) save file.
pub const EDITOR_SIZE: usize = 0x12A1F8;

/// Size of the checksum header section (the first bytes of the console layout).
pub const MD5_HEADER_SIZE: usize = 0x20;

/// Size of the sentinel block that begins with the magic pattern.
pub const SAV_HEADER_SIZE: usize = 0x80;

/// Offset of the 8-byte format marker inside the editor-layout prefix.
pub const MARKER_OFFSET: usize = 0x08;

/// Absolute offset in the console layout where the aligned data section begins.
pub const HCD_START_PS4: usize = 0x07BCA0;

/// Absolute offset in the editor layout where the aligned data section must land.
pub const HCD_START_PC_READY: usize = 0x07BCB8;

/// First byte of the 4-byte magic pattern at the head of the sentinel block.
pub const MAGIC0: u8 = 0x23;

/// Second byte of the magic pattern.
pub const MAGIC1: u8 = 0x53;

/// Third byte of the magic pattern.
pub const MAGIC2: u8 = 0x41;

/// Fourth byte of the magic pattern.
pub const MAGIC3: u8 = 0x56;

/// First fixed byte of the 8-byte marker signature.
pub const MARK0: u8 = 0x58;

/// Second fixed byte of the marker signature.
pub const MARK1: u8 = 0x56;

/// Third fixed byte of the marker signature.
pub const MARK2: u8 = 0x32;

/// Fourth fixed byte of the marker signature.
pub const MARK3: u8 = 0x53;

/// Fifth fixed byte of the marker signature.
pub const MARK4: u8 = 0x41;

/// Fixed seventh byte of the marker signature.
pub const MARK6: u8 = 0xD6;

/// Marker flag byte: no spilled data accompanies the editor buffer.
pub const FLAG_NO_LEFTOVERS: u8 = 0x54;

/// Marker flag byte: spilled data was written to the companion file.
pub const FLAG_LEFTOVERS: u8 = 0x2B;

/// The one supported version byte of the marker.
pub const VER_V2: u8 = 0x31;

/// Combined size of the checksum header and the sentinel block.
pub const HEADER_LEN: usize = MD5_HEADER_SIZE + SAV_HEADER_SIZE;

/// Where the aligned data section starts, counted inside the console
/// buffer's middle region.
pub const ALIGNED_START_IN_MIDDLE: usize = HCD_START_PS4 - SAV_HEADER_SIZE;

/// Length of the middle segment between the 8-byte leading segment and the
/// aligned data section.
pub const MIDDLE_SEGMENT_LEN: usize = ALIGNED_START_IN_MIDDLE - 8;

/// Required length of the editor-layout prefix (everything before the tail
/// byte, the sentinel block and the checksum header).
pub const REQUIRED_PREFIX_LEN: usize = EDITOR_SIZE - 1 - SAV_HEADER_SIZE - MD5_HEADER_SIZE;

/// Zero fill inserted so that the aligned data section lands at its fixed
/// editor-layout offset.
pub const FILL_LEN: usize = HCD_START_PC_READY - (8 + 8 + MIDDLE_SEGMENT_LEN);

/// Offset of the sentinel block in the editor layout, from the start.
pub const SAV_START_EDITOR: usize = EDITOR_SIZE - MD5_HEADER_SIZE - SAV_HEADER_SIZE;

/// Offset of the tail byte in the editor layout.
pub const Z_INDEX_EDITOR: usize = SAV_START_EDITOR - 1;

/// Length of the console buffer's middle region.
pub const MIDDLE_TOTAL_LEN: usize = PS4_SIZE - MD5_HEADER_SIZE - SAV_HEADER_SIZE - 1;

/// Full length of the aligned data section in the console layout.
pub const ALIGNED_FULL_LEN: usize = MIDDLE_TOTAL_LEN - ALIGNED_START_IN_MIDDLE;

/// How much of the aligned data section is physically present in an
/// editor-layout buffer.
pub const ALIGNED_PRESENT_LEN: usize = Z_INDEX_EDITOR - HCD_START_PC_READY;

/// Bytes of the aligned data section that the editor layout cannot hold and
/// that the inverse transform must recover.
pub const MISSING_LEN: usize = ALIGNED_FULL_LEN - ALIGNED_PRESENT_LEN;

} // verus!
