//! The bytes, counts and deadlines of the wire protocol.

use vstd::prelude::*;

verus! {

/// Opens every command; the same byte closes it.
pub const SOH: u8 = 0x01;

/// `Q`: the device is ready for a command, or has closed one.
pub const READY: u8 = 0x51;

/// `P`: sent by the host to proceed, echoed by the device; also sent by the
/// device when a ROM transfer is complete.
pub const PROCEED: u8 = 0x50;

/// `B`: the device announces itself after a reset, or is still scanning
/// during a ROM blank check.
pub const PRESENT: u8 = 0x42;

/// `Y`: yes.
pub const YES: u8 = 0x59;

/// `N`: no.
pub const NO: u8 = 0x4E;

/// `C`: a configuration block follows; during a ROM blank check, not blank.
pub const CONFIG: u8 = 0x43;

/// `V`: the programming voltages are on.
pub const VOLTAGES_ON: u8 = 0x56;

/// `v`: the programming voltages are off.
pub const VOLTAGES_OFF: u8 = 0x76;

/// `I`: the programming variables were taken.
pub const INITIALIZED: u8 = 0x49;

pub const CMD_ECHO: u8 = 2;

pub const CMD_INIT_VARS: u8 = 3;

pub const CMD_VOLTAGES_ON: u8 = 4;

pub const CMD_VOLTAGES_OFF: u8 = 5;

pub const CMD_CYCLE_VOLTAGES: u8 = 6;

pub const CMD_PROGRAM_ROM: u8 = 7;

pub const CMD_READ_ROM: u8 = 11;

pub const CMD_READ_EEPROM: u8 = 12;

pub const CMD_READ_CONFIG: u8 = 13;

pub const CMD_ERASE_CHIP: u8 = 14;

pub const CMD_ROM_BLANK: u8 = 15;

pub const CMD_EEPROM_BLANK: u8 = 16;

/// Milliseconds the device may take to answer the byte that opens or closes
/// a command.
pub const FRAME_TIMEOUT: u64 = 10_000;

/// Milliseconds the device may take for any other answer.
pub const REPLY_TIMEOUT: u64 = 5_000;

/// Milliseconds to wait for the device to announce itself after a reset.
pub const RESET_TIMEOUT: u64 = 300;

/// Milliseconds the reset line is held in each position.
pub const RESET_HOLD: u64 = 100;

/// Milliseconds a single read on the transport may block by default.
pub const PORT_TIMEOUT: u64 = 100;

/// Bytes in the configuration block of a chip.
pub const CONFIG_BLOCK: usize = 26;

/// Bytes in one block of a ROM transfer.
pub const ROM_BLOCK: usize = 32;

/// Bytes in the payload that carries the programming variables.
pub const VARS_PAYLOAD: usize = 11;

} // verus!
