//! Protocol-fixed constants: the board's USB identity, the minimum firmware
//! version accepted for I/O mode, and the fixed sizes of the configuration
//! bank and the cipher table.

use vstd::prelude::*;

verus! {

/// USB vendor identifier of the VLFD board.
pub const DW_VID: u16 = 0x2200;

/// USB product identifier of the VLFD board.
pub const DW_PID: u16 = 0x2008;

/// Minimum packed firmware version (major/sub/patch nibbles) required before
/// VeriComm I/O mode may be entered.
pub const SMIMS_VERSION: u16 = 0x0226;

/// Number of 16-bit words in the configuration register bank.
pub const CONFIG_WORD_COUNT: usize = 64;

/// Number of 16-bit words in the device-issued cipher table.
pub const CIPHER_TABLE_WORD_COUNT: usize = 32;

/// Length of each rolling-keystream half of the cipher table.
pub const KEYSTREAM_LEN: usize = 16;

/// Wall-clock bound, in milliseconds, on the sync-handshake retry loop.
pub const SYNC_TIMEOUT_MS: u64 = 1000;

/// Deadline, in milliseconds, handed to each bulk transfer.
pub const BULK_TIMEOUT_MS: u64 = 1000;

/// The USB interface claimed on the device.
pub const USB_INTERFACE: u8 = 0;

} // verus!
