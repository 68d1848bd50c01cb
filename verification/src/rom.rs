//! The fixed, silicon-defined parameters of the boot-ROM lookup.
//!
//! The ROM publishes, at two fixed addresses, half-words that point to a
//! generic table-lookup routine and to a table of helper functions. The
//! reset-to-USB-boot routine is found in that table under a two-byte ASCII
//! code, handed to the lookup routine as a little-endian 16-bit value
//! widened to 32 bits.

use vstd::prelude::*;

verus! {

/// Fixed address of the half-word pointing to the ROM's table-lookup routine.
pub const ROM_TABLE_LOOKUP_PTR_ADDR: u32 = 0x18;

/// Fixed address of the half-word pointing to the ROM's helper-function table.
pub const FUNC_TABLE_ADDR: u32 = 0x14;

/// First byte of the table code of the reset-to-USB-boot routine: ASCII 'U'.
pub const RESET_TO_USB_BOOT_CODE_0: u8 = 0x55;

/// Second byte of the table code of the reset-to-USB-boot routine: ASCII 'B'.
pub const RESET_TO_USB_BOOT_CODE_1: u8 = 0x42;

/// The 32-bit lookup key formed from a two-byte table code: the two bytes
/// read as a little-endian 16-bit value, widened to 32 bits.
pub open spec fn spec_table_code_key(b0: u8, b1: u8) -> u32 {
    (b0 as int + 256 * (b1 as int)) as u32
}

/// Compute the lookup key the ROM's table-lookup routine expects for a
/// two-byte table code.
pub fn table_code_key(b0: u8, b1: u8) -> (r: u32)
    ensures
        r == spec_table_code_key(b0, b1),
{
    (b0 as u32) + 256 * (b1 as u32)
}

} // verus!
