//! The exchanges of the protocol, written down as plans.
//!
//! A plan is the sequence of steps the host and the device go through when
//! an operation meets no surprise. The functions named `*_steps` are the
//! definition of the wire protocol; the executable functions beside them
//! build the same sequences as vectors.

use vstd::prelude::*;
use crate::message::Stage;
use crate::wire::{
    CMD_ECHO, CMD_INIT_VARS, CMD_PROGRAM_ROM, CMD_READ_CONFIG, CMD_ROM_BLANK, CMD_VOLTAGES_OFF,
    CMD_VOLTAGES_ON, CONFIG, CONFIG_BLOCK, FRAME_TIMEOUT, PROCEED, READY, REPLY_TIMEOUT,
    RESET_HOLD, RESET_TIMEOUT, ROM_BLOCK, SOH, VARS_PAYLOAD, VOLTAGES_OFF, VOLTAGES_ON, YES,
};

verus! {

/// One step of an exchange.
#[derive(Clone, Copy, Debug, PartialEq, Eq)]
pub enum Step {
    /// Drive the reset line.
    Line(bool),
    /// Wait for so many milliseconds.
    Pause(u64),
    /// Flush the transport.
    Flush,
    /// Send one byte.
    SendByte(u8),
    /// Send `len` bytes of the operation's payload, from offset `start`.
    SendBlock { start: usize, len: usize },
    /// Read one byte, which must be `byte` and nothing else.
    Expect { byte: u8, timeout: u64, stage: Stage },
    /// Read one byte, which must arrive; `byte` is what a device in good
    /// order sends, but any answer lets the exchange go on.
    Await { byte: u8, timeout: u64, stage: Stage },
    /// Read up to `count` bytes and keep what arrives, however little.
    Collect { count: usize, timeout: u64 },
}

/// How an operation turns the bytes it kept into its result once its plan
/// has run to the end.
#[derive(Clone, Copy, Debug, PartialEq, Eq)]
pub enum Ending {
    /// The answer to a reset. With `retry`, silence starts a second attempt.
    Presence { retry: bool },
    /// One status byte, to be compared with `success`. With `marks_vars`, a
    /// success records that the programming variables are initialised.
    Status { success: u8, stage: Stage, marks_vars: bool },
    /// One status byte that must be `yes` or `no`.
    Choice { yes: u8, no: u8 },
    /// The bytes themselves.
    Data,
    /// A result that was settled before the plan ran.
    Fixed(bool),
    /// One byte of a ROM blank check, during which the device may still
    /// report `budget` times that it is busy.
    Scan { budget: u16 },
}

/// Whether a step stays within a payload of `available` bytes.
pub open spec fn fits(step: Step, available: nat) -> bool {
    step matches Step::SendBlock { start, len } ==> start + len <= available
}

/// Whether every step of a plan stays within a payload of `available` bytes.
pub open spec fn plan_fits(plan: Seq<Step>, available: nat) -> bool {
    forall|i: int| 0 <= i < plan.len() ==> fits(#[trigger] plan[i], available)
}

/// Opening a command: the start byte, the device's `Q`, the host's `P`, the
/// device's `P`, and then the command code unless it is zero.
pub open spec fn command_start_steps(command: u8) -> Seq<Step> {
    let opening = seq![
        Step::SendByte(SOH),
        Step::Expect { byte: READY, timeout: FRAME_TIMEOUT, stage: Stage::Prologue },
        Step::SendByte(PROCEED),
        Step::Expect { byte: PROCEED, timeout: REPLY_TIMEOUT, stage: Stage::StartAck },
    ];
    if command == 0 {
        opening
    } else {
        opening.push(Step::SendByte(command))
    }
}

/// Closing a command: the end byte and the device's `Q`.
pub open spec fn command_end_steps() -> Seq<Step> {
    seq![
        Step::SendByte(SOH),
        Step::Expect { byte: READY, timeout: FRAME_TIMEOUT, stage: Stage::EndAck },
    ]
}

/// Switching the programming voltages inside another operation.
pub open spec fn voltage_steps(on: bool) -> Seq<Step> {
    if on {
        seq![
            Step::SendByte(CMD_VOLTAGES_ON),
            Step::Await { byte: VOLTAGES_ON, timeout: REPLY_TIMEOUT, stage: Stage::Voltages },
        ]
    } else {
        seq![
            Step::SendByte(CMD_VOLTAGES_OFF),
            Step::Await { byte: VOLTAGES_OFF, timeout: REPLY_TIMEOUT, stage: Stage::Voltages },
        ]
    }
}

/// The first attempt of a reset: pulse the reset line, then listen.
pub open spec fn reset_steps() -> Seq<Step> {
    seq![
        Step::Line(true),
        Step::Pause(RESET_HOLD),
        Step::Flush,
        Step::Line(false),
        Step::Pause(RESET_HOLD),
        Step::Collect { count: 2, timeout: RESET_TIMEOUT },
    ]
}

/// The second attempt of a reset: assert the line again, then listen.
pub open spec fn reset_retry_steps() -> Seq<Step> {
    seq![
        Step::Line(true),
        Step::Pause(RESET_HOLD),
        Step::Collect { count: 2, timeout: RESET_TIMEOUT },
    ]
}

/// The byte that is sent for a character: its low eight bits.
pub open spec fn char_byte(c: char) -> u8 {
    (c as u32 % 256) as u8
}

/// Echoing a message: for each character the echo command, the character,
/// and one byte back.
pub open spec fn echo_body(message: Seq<char>) -> Seq<Step> {
    Seq::new(
        3 * message.len(),
        |i: int|
            if i % 3 == 0 {
                Step::SendByte(CMD_ECHO)
            } else if i % 3 == 1 {
                Step::SendByte(char_byte(message[i / 3]))
            } else {
                Step::Collect { count: 1, timeout: REPLY_TIMEOUT }
            },
    )
}

/// The echo operation.
pub open spec fn echo_steps(message: Seq<char>) -> Seq<Step> {
    command_start_steps(0) + echo_body(message) + command_end_steps()
}

/// Handing over the programming variables.
pub open spec fn init_vars_steps() -> Seq<Step> {
    command_start_steps(CMD_INIT_VARS) + seq![
        Step::SendBlock { start: 0, len: VARS_PAYLOAD },
        Step::Collect { count: 1, timeout: REPLY_TIMEOUT },
    ] + command_end_steps()
}

/// Switching the programming voltages as an operation of its own, without
/// opening or closing a command.
pub open spec fn set_voltages_steps(on: bool) -> Seq<Step> {
    seq![
        Step::SendByte(if on { CMD_VOLTAGES_ON } else { CMD_VOLTAGES_OFF }),
        Step::Collect { count: 1, timeout: REPLY_TIMEOUT },
    ]
}

/// A command that is answered by one status byte.
pub open spec fn query_steps(command: u8) -> Seq<Step> {
    command_start_steps(command) + seq![Step::Collect { count: 1, timeout: REPLY_TIMEOUT }]
        + command_end_steps()
}

/// The blocks of a ROM transfer: each block of the payload in turn, each
/// acknowledged with `Y`.
pub open spec fn transfer_steps(blocks: nat) -> Seq<Step> {
    Seq::new(
        2 * blocks,
        |i: int|
            if i % 2 == 0 {
                Step::SendBlock { start: (ROM_BLOCK * (i / 2)) as usize, len: ROM_BLOCK }
            } else {
                Step::Expect { byte: YES, timeout: REPLY_TIMEOUT, stage: Stage::Transfer }
            },
    )
}

/// The byte that announces a transfer of `bytes` bytes: the number of words,
/// of which the one-byte field holds the low eight bits.
pub open spec fn word_count_byte(bytes: nat) -> u8 {
    ((bytes / 2) % 256) as u8
}

/// Programming the ROM with a payload of `bytes` bytes.
pub open spec fn program_rom_steps(bytes: nat) -> Seq<Step> {
    command_start_steps(0) + voltage_steps(true) + seq![
        Step::SendByte(CMD_PROGRAM_ROM),
        Step::SendByte(word_count_byte(bytes)),
        Step::Expect { byte: YES, timeout: REPLY_TIMEOUT, stage: Stage::Transfer },
    ] + transfer_steps(bytes / (ROM_BLOCK as nat)) + seq![
        Step::Expect { byte: PROCEED, timeout: REPLY_TIMEOUT, stage: Stage::Transfer },
    ] + voltage_steps(false) + command_end_steps()
}

/// Reading `count` bytes of a memory with the given command.
pub open spec fn read_steps(command: u8, count: usize) -> Seq<Step> {
    command_start_steps(0) + voltage_steps(true) + seq![
        Step::SendByte(command),
        Step::Collect { count, timeout: REPLY_TIMEOUT },
    ] + voltage_steps(false) + command_end_steps()
}

/// Reading the configuration block.
pub open spec fn read_configuration_steps() -> Seq<Step> {
    command_start_steps(0) + voltage_steps(true) + seq![
        Step::SendByte(CMD_READ_CONFIG),
        Step::Expect { byte: CONFIG, timeout: REPLY_TIMEOUT, stage: Stage::Status },
        Step::Collect { count: CONFIG_BLOCK, timeout: REPLY_TIMEOUT },
    ] + voltage_steps(false) + command_end_steps()
}

/// Starting a ROM blank check, up to the first byte of the answer.
pub open spec fn rom_blank_steps(high_byte: u8) -> Seq<Step> {
    command_start_steps(CMD_ROM_BLANK) + seq![
        Step::SendByte(high_byte),
        Step::Collect { count: 1, timeout: REPLY_TIMEOUT },
    ]
}

/// Listening for the next byte of a ROM blank check.
pub open spec fn scan_steps() -> Seq<Step> {
    seq![Step::Collect { count: 1, timeout: REPLY_TIMEOUT }]
}

/// The number of times a chip with `rom_size` words may report that it is
/// still scanning: one for each 256 words after the first, and none for a
/// ROM of fewer than 256 words.
pub open spec fn scan_budget(rom_size: u16) -> u16 {
    if rom_size / 256 >= 1 {
        (rom_size / 256 - 1) as u16
    } else {
        0
    }
}

/// Putting two plans that fit a payload one after the other gives a plan
/// that fits it.
pub proof fn lemma_fits_concat(first: Seq<Step>, second: Seq<Step>, available: nat)
    requires
        plan_fits(first, available),
        plan_fits(second, available),
    ensures
        plan_fits(first + second, available),
{
    assert forall|i: int| 0 <= i < (first + second).len() implies fits(
        #[trigger] (first + second)[i],
        available,
    ) by {
        if i < first.len() {
            assert((first + second)[i] == first[i]);
        } else {
            assert((first + second)[i] == second[i - first.len()]);
        }
    }
}

/// Appends the opening of a command to `plan`.
pub fn command_start(plan: &mut Vec<Step>, command: u8)
    ensures
        final(plan)@ == old(plan)@ + command_start_steps(command),
{
    plan.push(Step::SendByte(SOH));
    plan.push(Step::Expect { byte: READY, timeout: FRAME_TIMEOUT, stage: Stage::Prologue });
    plan.push(Step::SendByte(PROCEED));
    plan.push(Step::Expect { byte: PROCEED, timeout: REPLY_TIMEOUT, stage: Stage::StartAck });
    if command > 0 {
        plan.push(Step::SendByte(command));
    }
    assert(plan@ =~= old(plan)@ + command_start_steps(command));
}

/// Appends the closing of a command to `plan`.
pub fn command_end(plan: &mut Vec<Step>)
    ensures
        final(plan)@ == old(plan)@ + command_end_steps(),
{
    plan.push(Step::SendByte(SOH));
    plan.push(Step::Expect { byte: READY, timeout: FRAME_TIMEOUT, stage: Stage::EndAck });
    assert(plan@ =~= old(plan)@ + command_end_steps());
}

/// Appends the switching of the programming voltages to `plan`.
pub fn switch_voltages(plan: &mut Vec<Step>, on: bool)
    ensures
        final(plan)@ == old(plan)@ + voltage_steps(on),
{
    if on {
        plan.push(Step::SendByte(CMD_VOLTAGES_ON));
        plan.push(
            Step::Await { byte: VOLTAGES_ON, timeout: REPLY_TIMEOUT, stage: Stage::Voltages },
        );
    } else {
        plan.push(Step::SendByte(CMD_VOLTAGES_OFF));
        plan.push(
            Step::Await { byte: VOLTAGES_OFF, timeout: REPLY_TIMEOUT, stage: Stage::Voltages },
        );
    }
    assert(plan@ =~= old(plan)@ + voltage_steps(on));
}

} // verus!
