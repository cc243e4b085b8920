//! The session a host holds with a programmer.
//!
//! A `ProtocolInterface` never touches the serial line. Each operation
//! (`reset`, `read_rom`, ...) starts an exchange and returns the first
//! `Action` the host is to carry out; `advance` takes what happened and
//! returns the next, until the action is `Finish` and carries the result.
//!
//! ```text
//! let mut action = session.read_rom();
//! loop {
//!     let event = match action {
//!         Action::Finish(outcome) => break outcome,
//!         other => carry_out(&mut port, other),
//!     };
//!     action = session.advance(event);
//! }
//! ```

use vstd::prelude::*;
use vstd::slice::{slice_subrange, slice_to_vec};
use vstd::string::*;
use crate::chipinfo::{fast_sequence_name, lowercased, ChipInfo};
use crate::machine::{
    conclude, halt, launch, presence, proceed, request, step, Machine, SessionView,
};
use crate::message::{
    outcome_view, Action, ActionView, Event, Firmware, ProtocolError, ProtocolErrorView, Reply,
    SizeFault, Stage,
};
use crate::plan::{
    command_end, command_end_steps, command_start, command_start_steps, echo_body,
    echo_steps, fits, init_vars_steps, lemma_fits_concat, plan_fits, program_rom_steps,
    query_steps, read_configuration_steps, read_steps, reset_retry_steps, reset_steps,
    rom_blank_steps, scan_budget, scan_steps, set_voltages_steps, switch_voltages,
    transfer_steps, voltage_steps, word_count_byte, Ending, Step,
};
use crate::utils::{hi_lo, high_byte, low_byte};
use crate::wire::{
    CMD_CYCLE_VOLTAGES, CMD_ECHO, CMD_EEPROM_BLANK, CMD_ERASE_CHIP, CMD_INIT_VARS,
    CMD_PROGRAM_ROM, CMD_READ_CONFIG, CMD_READ_EEPROM, CMD_READ_ROM, CMD_ROM_BLANK,
    CMD_VOLTAGES_OFF, CMD_VOLTAGES_ON, CONFIG, CONFIG_BLOCK, INITIALIZED, NO, PRESENT, PROCEED,
    REPLY_TIMEOUT, RESET_HOLD, RESET_TIMEOUT, ROM_BLOCK, VARS_PAYLOAD, VOLTAGES_OFF, VOLTAGES_ON,
    YES,
};

verus! {

/// The flags byte of the programming variables: bit 0 for a calibration
/// value in ROM, bit 1 for a band gap fuse, bit 2 for single panel access
/// mode, bit 3 for a fast power sequence.
pub open spec fn flag_bits(calibration: bool, band_gap: bool, single_panel: bool, fast: bool) -> u8 {
    ((if calibration { 1int } else { 0 }) + (if band_gap { 2int } else { 0 }) + (if single_panel {
        4int
    } else {
        0
    }) + (if fast { 8int } else { 0 })) as u8
}

/// The eleven bytes that carry the programming variables of `chip`, where
/// `fast` says whether its power sequence is a fast one: ROM size and
/// EEPROM size as big-endian pairs, core type, flags, program delay, power
/// sequence, erase mode, program tries, over-program.
pub open spec fn payload_of(chip: ChipInfo, fast: bool) -> Seq<u8> {
    seq![
        high_byte(chip.rom_size),
        low_byte(chip.rom_size),
        high_byte(chip.eeprom_size as u16),
        low_byte(chip.eeprom_size as u16),
        chip.core_type,
        flag_bits(
            chip.flag_calibration_value_in_rom,
            chip.flag_band_gap_fuse,
            chip.core_type == 1,
            fast,
        ),
        chip.program_delay,
        chip.power_sequence,
        chip.erase_mode,
        chip.program_tries,
        chip.over_program,
    ]
}

/// Builds the payload that carries the programming variables of `chip`.
/// `fast` is the chip's `flag_vcc_vpp_delay`.
pub fn vars_payload(chip: &ChipInfo, fast: bool) -> (payload: Vec<u8>)
    ensures
        payload@ == payload_of(*chip, fast),
{
    let mut flags: u8 = 0;
    if chip.flag_calibration_value_in_rom() {
        flags = flags + 1;
    }
    if chip.flag_band_gap_fuse() {
        flags = flags + 2;
    }
    if chip.flag_18f_single_panel_access_mode() {
        flags = flags + 4;
    }
    if fast {
        flags = flags + 8;
    }
    let (rom_hi, rom_lo) = hi_lo(chip.rom_size());
    let (eeprom_hi, eeprom_lo) = hi_lo(chip.eeprom_size() as u16);
    let mut payload: Vec<u8> = Vec::new();
    payload.push(rom_hi);
    payload.push(rom_lo);
    payload.push(eeprom_hi);
    payload.push(eeprom_lo);
    payload.push(chip.core_type());
    payload.push(flags);
    payload.push(chip.program_delay());
    payload.push(chip.power_sequence());
    payload.push(chip.erase_mode());
    payload.push(chip.program_tries());
    payload.push(chip.over_program());
    assert(payload@ =~= payload_of(*chip, fast));
    payload
}

/// Reads the answer to a reset.
pub fn presence_of(answer: &Vec<u8>) -> (outcome: Result<Reply, ProtocolError>)
    ensures
        outcome_view(outcome) == presence(answer@),
{
    let present = answer.len() >= 1 && answer[0] == PRESENT;
    if present && answer.len() == 2 {
        match Firmware::from_index(answer[1]) {
            Some(firmware) => Ok(Reply::Presence { present: true, firmware: Some(firmware) }),
            None => Err(ProtocolError::Configuration(answer[1])),
        }
    } else {
        Ok(Reply::Presence { present, firmware: None })
    }
}

/// Starting an operation that needs the programming variables: it starts
/// if they are initialised, and is refused otherwise.
pub open spec fn gated(session: SessionView, plan: Seq<Step>, outgoing: Seq<u8>, ending: Ending) -> (
    SessionView,
    ActionView,
) {
    if session.vars_set {
        launch(session, plan, outgoing, ending)
    } else {
        halt(session, Err(ProtocolErrorView::Precondition))
    }
}

/// Starting to program the ROM of a chip with `rom_size` words. A payload
/// of more words than the ROM holds, or one that is not a whole number of
/// blocks, is refused before anything else is looked at.
pub open spec fn program_rom_start(session: SessionView, rom_size: u16, data: Seq<u8>) -> (
    SessionView,
    ActionView,
) {
    if data.len() / 2 > rom_size {
        halt(session, Err(ProtocolErrorView::SizeConstraint(SizeFault::TooLarge)))
    } else if data.len() % (ROM_BLOCK as nat) != 0 {
        halt(session, Err(ProtocolErrorView::SizeConstraint(SizeFault::Misaligned)))
    } else {
        gated(session, program_rom_steps(data.len()), data, Ending::Fixed(true))
    }
}

/// A session with one programmer, for one chip.
pub struct ProtocolInterface {
    vars: ChipInfo,
    vars_set: bool,
    fuses_set: bool,
    busy: bool,
    plan: Vec<Step>,
    pc: usize,
    outgoing: Vec<u8>,
    kept: Vec<u8>,
    ending: Ending,
}

impl View for ProtocolInterface {
    type V = SessionView;

    closed spec fn view(&self) -> SessionView {
        SessionView {
            vars_set: self.vars_set,
            fuses_set: self.fuses_set,
            running: if self.busy {
                Some(self.machine())
            } else {
                None
            },
        }
    }
}

impl ProtocolInterface {
    /// The operation the fields describe, whether or not it is in progress.
    closed spec fn machine(&self) -> Machine {
        Machine {
            plan: self.plan@,
            pc: self.pc as nat,
            outgoing: self.outgoing@,
            kept: self.kept@,
            ending: self.ending,
        }
    }

    /// The chip this session is for.
    pub closed spec fn chip(&self) -> ChipInfo {
        self.vars
    }

    /// The invariant of a session.
    pub open spec fn wf(&self) -> bool {
        self@.wf()
    }

    /// A new session for `vars`: idle, with nothing initialised.
    pub fn new(vars: ChipInfo) -> (session: ProtocolInterface)
        ensures
            session.wf(),
            session.chip() == vars,
            session@ == (SessionView { vars_set: false, fuses_set: false, running: None }),
    {
        ProtocolInterface {
            vars,
            vars_set: false,
            fuses_set: false,
            busy: false,
            plan: Vec::new(),
            pc: 0,
            outgoing: Vec::new(),
            kept: Vec::new(),
            ending: Ending::Data,
        }
    }

    /// The chip this session is for.
    pub fn vars(&self) -> (vars: &ChipInfo)
        ensures
            *vars == self.chip(),
    {
        &self.vars
    }

    /// Whether the programming variables have been initialised.
    pub fn vars_set(&self) -> (set: bool)
        ensures
            set == self@.vars_set,
    {
        self.vars_set
    }

    /// Whether the fuses have been initialised.
    pub fn fuses_set(&self) -> (set: bool)
        ensures
            set == self@.fuses_set,
    {
        self.fuses_set
    }

    /// Whether an operation is in progress.
    pub fn is_busy(&self) -> (busy: bool)
        ensures
            busy == self@.running is Some,
    {
        self.busy
    }

    /// Ends whatever is in progress with `error`.
    fn fail(&mut self, error: ProtocolError) -> (action: Action)
        ensures
            final(self).wf(),
            final(self).chip() == old(self).chip(),
            (final(self)@, action@) == halt(old(self)@, Err(error@)),
    {
        self.busy = false;
        Action::Finish(Err(error))
    }

    /// Ends whatever is in progress with `reply`.
    fn succeed(&mut self, reply: Reply) -> (action: Action)
        ensures
            final(self).wf(),
            final(self).chip() == old(self).chip(),
            (final(self)@, action@) == halt(old(self)@, Ok(reply@)),
    {
        self.busy = false;
        Action::Finish(Ok(reply))
    }

    /// The action for the pending step.
    fn emit(&self) -> (action: Action)
        requires
            self.pc < self.plan@.len(),
            plan_fits(self.plan@, self.outgoing@.len()),
        ensures
            action@ == request(self.plan@[self.pc as int], self.outgoing@),
    {
        let current: Step = self.plan[self.pc];
        assert(fits(self.plan@[self.pc as int], self.outgoing@.len()));
        match current {
            Step::Line(level) => Action::Line(level),
            Step::Pause(millis) => Action::Pause(millis),
            Step::Flush => Action::Flush,
            Step::SendByte(byte) => {
                let mut bytes: Vec<u8> = Vec::new();
                bytes.push(byte);
                assert(bytes@ =~= seq![byte]);
                Action::Write(bytes)
            },
            Step::SendBlock { start, len } => {
                let available: usize = self.outgoing.len();
                let block = slice_subrange(self.outgoing.as_slice(), start, start + len);
                Action::Write(slice_to_vec(block))
            },
            Step::Expect { timeout, .. } => Action::Read { count: 1, timeout },
            Step::Await { timeout, .. } => Action::Read { count: 1, timeout },
            Step::Collect { count, timeout } => Action::Read { count, timeout },
        }
    }

    /// Starts on `plan`, abandoning whatever was in progress.
    fn begin(&mut self, plan: Vec<Step>, outgoing: Vec<u8>, ending: Ending) -> (action: Action)
        requires
            plan@.len() > 0,
            plan_fits(plan@, outgoing@.len()),
        ensures
            final(self).wf(),
            final(self).chip() == old(self).chip(),
            (final(self)@, action@) == launch(old(self)@, plan@, outgoing@, ending),
    {
        self.plan = plan;
        self.pc = 0;
        self.outgoing = outgoing;
        self.kept = Vec::new();
        self.ending = ending;
        self.busy = true;
        self.emit()
    }

    /// Starts on `plan` if the programming variables are initialised.
    fn begin_gated(&mut self, plan: Vec<Step>, outgoing: Vec<u8>, ending: Ending) -> (action:
        Action)
        requires
            plan@.len() > 0,
            plan_fits(plan@, outgoing@.len()),
        ensures
            final(self).wf(),
            final(self).chip() == old(self).chip(),
            (final(self)@, action@) == gated(old(self)@, plan@, outgoing@, ending),
    {
        if self.vars_set {
            self.begin(plan, outgoing, ending)
        } else {
            self.fail(ProtocolError::Precondition)
        }
    }

    /// Reports the result of the operation whose plan has run to the end,
    /// or goes on with a further plan.
    fn conclude(&mut self) -> (action: Action)
        requires
            old(self).busy,
        ensures
            final(self).wf(),
            final(self).chip() == old(self).chip(),
            (final(self)@, action@) == conclude(old(self)@, old(self).machine()),
    {
        match self.ending {
            Ending::Presence { retry } => {
                if retry && self.kept.len() == 0 {
                    let mut plan: Vec<Step> = Vec::new();
                    plan.push(Step::Line(true));
                    plan.push(Step::Pause(RESET_HOLD));
                    plan.push(Step::Collect { count: 2, timeout: RESET_TIMEOUT });
                    assert(plan@ =~= reset_retry_steps());
                    self.begin(plan, Vec::new(), Ending::Presence { retry: false })
                } else {
                    let outcome = presence_of(&self.kept);
                    self.busy = false;
                    Action::Finish(outcome)
                }
            },
            Ending::Status { success, stage, marks_vars } => {
                if self.kept.len() == 0 {
                    let received = self.take_kept();
                    self.fail(ProtocolError::Violation { stage, expected: success, received })
                } else {
                    let flag = self.kept[0] == success;
                    if marks_vars && flag {
                        self.vars_set = true;
                    }
                    self.succeed(Reply::Flag(flag))
                }
            },
            Ending::Choice { yes, no } => {
                if self.kept.len() >= 1 && (self.kept[0] == yes || self.kept[0] == no) {
                    let flag = self.kept[0] == yes;
                    self.succeed(Reply::Flag(flag))
                } else {
                    let received = self.take_kept();
                    self.fail(ProtocolError::Violation { stage: Stage::Status, expected: yes, received })
                }
            },
            Ending::Data => {
                let data = self.take_kept();
                self.succeed(Reply::Data(data))
            },
            Ending::Fixed(flag) => self.succeed(Reply::Flag(flag)),
            Ending::Scan { budget } => {
                if self.kept.len() == 0 {
                    let received = self.take_kept();
                    self.fail(ProtocolError::Violation { stage: Stage::Status, expected: YES, received })
                } else if self.kept[0] == YES || self.kept[0] == NO || self.kept[0] == CONFIG {
                    let blank = self.kept[0] == YES;
                    let mut plan: Vec<Step> = Vec::new();
                    command_end(&mut plan);
                    assert(plan@ =~= command_end_steps());
                    self.begin(plan, Vec::new(), Ending::Fixed(blank))
                } else if self.kept[0] == PRESENT && budget > 0 {
                    let mut plan: Vec<Step> = Vec::new();
                    plan.push(Step::Collect { count: 1, timeout: REPLY_TIMEOUT });
                    assert(plan@ =~= scan_steps());
                    self.begin(plan, Vec::new(), Ending::Scan { budget: budget - 1 })
                } else {
                    let received = self.take_kept();
                    self.fail(ProtocolError::Violation { stage: Stage::Status, expected: YES, received })
                }
            },
        }
    }

    /// Hands out the bytes kept so far.
    fn take_kept(&mut self) -> (kept: Vec<u8>)
        ensures
            kept@ == old(self).kept@,
            final(self).busy == old(self).busy,
            final(self)@.vars_set == old(self)@.vars_set,
            final(self)@.fuses_set == old(self)@.fuses_set,
            final(self).chip() == old(self).chip(),
    {
        let mut kept: Vec<u8> = Vec::new();
        core::mem::swap(&mut kept, &mut self.kept);
        kept
    }

    /// Moves past the step that was just answered.
    fn proceed(&mut self) -> (action: Action)
        requires
            old(self).busy,
            old(self).pc < old(self).plan@.len(),
            plan_fits(old(self).plan@, old(self).outgoing@.len()),
        ensures
            final(self).wf(),
            final(self).chip() == old(self).chip(),
            (final(self)@, action@) == proceed(
                old(self)@,
                Machine { pc: old(self).machine().pc + 1, ..old(self).machine() },
            ),
    {
        let length: usize = self.plan.len();
        self.pc = self.pc + 1;
        if self.pc < length {
            self.emit()
        } else {
            self.conclude()
        }
    }

    /// Takes what happened when the host carried out the last action, and
    /// returns the next action. The session does with the event exactly
    /// what `step` says.
    pub fn advance(&mut self, event: Event) -> (action: Action)
        requires
            old(self).wf(),
        ensures
            final(self).wf(),
            final(self).chip() == old(self).chip(),
            (final(self)@, action@) == step(old(self)@, event@),
    {
        if !self.busy {
            return self.fail(ProtocolError::Sequence);
        }
        let current: Step = self.plan[self.pc];
        match event {
            Event::Failed => self.fail(ProtocolError::Transport),
            Event::Done => {
                match current {
                    Step::Line(_) | Step::Pause(_) | Step::Flush | Step::SendByte(_) | Step::SendBlock { .. } => self.proceed(),
                    _ => self.fail(ProtocolError::Sequence),
                }
            },
            Event::Received(bytes) => {
                match current {
                    Step::Expect { byte, stage, .. } => {
                        if bytes.len() == 1 && bytes[0] == byte {
                            assert(bytes@ =~= seq![byte]);
                            self.proceed()
                        } else {
                            self.fail(ProtocolError::Violation { stage, expected: byte, received: bytes })
                        }
                    },
                    Step::Await { byte, stage, .. } => {
                        if bytes.len() > 0 {
                            self.proceed()
                        } else {
                            self.fail(ProtocolError::Violation { stage, expected: byte, received: bytes })
                        }
                    },
                    Step::Collect { .. } => {
                        let mut bytes = bytes;
                        self.kept.append(&mut bytes);
                        self.proceed()
                    },
                    _ => self.fail(ProtocolError::Sequence),
                }
            },
        }
    }
}

impl ProtocolInterface {
    /// Resets the programmer and listens for it to announce itself: pulse
    /// the reset line, listen for two bytes, and if nothing at all arrives
    /// assert the line again and listen once more.
    ///
    /// Ends with `Reply::Presence`, or with `ProtocolError::Configuration`
    /// if a programmer names a firmware that does not exist.
    pub fn reset(&mut self) -> (first: Action)
        requires
            old(self).wf(),
        ensures
            final(self).wf(),
            final(self).chip() == old(self).chip(),
            (final(self)@, first@) == launch(
                old(self)@,
                reset_steps(),
                Seq::empty(),
                Ending::Presence { retry: true },
            ),
    {
        let mut plan: Vec<Step> = Vec::new();
        plan.push(Step::Line(true));
        plan.push(Step::Pause(RESET_HOLD));
        plan.push(Step::Flush);
        plan.push(Step::Line(false));
        plan.push(Step::Pause(RESET_HOLD));
        plan.push(Step::Collect { count: 2, timeout: RESET_TIMEOUT });
        assert(plan@ =~= reset_steps());
        self.begin(plan, Vec::new(), Ending::Presence { retry: true })
    }

    /// Sends each character of `message` to the programmer and collects
    /// what it sends back. Ends with `Reply::Data`.
    pub fn echo(&mut self, message: &str) -> (first: Action)
        requires
            old(self).wf(),
        ensures
            final(self).wf(),
            final(self).chip() == old(self).chip(),
            (final(self)@, first@) == launch(
                old(self)@,
                echo_steps(message@),
                Seq::empty(),
                Ending::Data,
            ),
    {
        let mut plan: Vec<Step> = Vec::new();
        command_start(&mut plan, 0);
        let count: usize = message.unicode_len();
        let mut i: usize = 0;
        assert(plan@ =~= command_start_steps(0) + echo_body(message@.take(0)));
        while i < count
            invariant
                i <= count,
                count == message@.len(),
                plan@ == command_start_steps(0) + echo_body(message@.take(i as int)),
            decreases count - i,
        {
            let c = message.get_char(i);
            plan.push(Step::SendByte(CMD_ECHO));
            plan.push(Step::SendByte((c as u32 % 256) as u8));
            plan.push(Step::Collect { count: 1, timeout: REPLY_TIMEOUT });
            i = i + 1;
            assert(plan@ =~= command_start_steps(0) + echo_body(message@.take(i as int)));
        }
        assert(message@.take(count as int) =~= message@);
        command_end(&mut plan);
        assert(plan_fits(plan@, 0));
        self.begin(plan, Vec::new(), Ending::Data)
    }

    /// Hands the programming variables of the chip to the programmer. Ends
    /// with `Reply::Flag`, true if the programmer took them, and the
    /// session then holds them to be initialised.
    pub fn init_programming_vars(&mut self) -> (first: Action)
        requires
            old(self).wf(),
        ensures
            final(self).wf(),
            final(self).chip() == old(self).chip(),
            (final(self)@, first@) == launch(
                old(self)@,
                init_vars_steps(),
                payload_of(
                    old(self).chip(),
                    fast_sequence_name(lowercased(old(self).chip().power_sequence_str@)),
                ),
                Ending::Status { success: INITIALIZED, stage: Stage::Status, marks_vars: true },
            ),
    {
        let fast = self.vars.flag_vcc_vpp_delay();
        let payload = vars_payload(&self.vars, fast);
        let mut plan: Vec<Step> = Vec::new();
        command_start(&mut plan, CMD_INIT_VARS);
        plan.push(Step::SendBlock { start: 0, len: VARS_PAYLOAD });
        plan.push(Step::Collect { count: 1, timeout: REPLY_TIMEOUT });
        command_end(&mut plan);
        assert(plan@ =~= init_vars_steps());
        assert(plan_fits(plan@, payload@.len()));
        self.begin(
            plan,
            payload,
            Ending::Status { success: INITIALIZED, stage: Stage::Status, marks_vars: true },
        )
    }

    /// Switches the programming voltages on or off. Ends with
    /// `Reply::Flag`, true if the programmer confirmed the switch.
    pub fn set_programming_voltages(&mut self, on: bool) -> (first: Action)
        requires
            old(self).wf(),
        ensures
            final(self).wf(),
            final(self).chip() == old(self).chip(),
            (final(self)@, first@) == gated(
                old(self)@,
                set_voltages_steps(on),
                Seq::empty(),
                Ending::Status {
                    success: if on { VOLTAGES_ON } else { VOLTAGES_OFF },
                    stage: Stage::Voltages,
                    marks_vars: false,
                },
            ),
    {
        let mut plan: Vec<Step> = Vec::new();
        let success: u8 = if on {
            plan.push(Step::SendByte(CMD_VOLTAGES_ON));
            VOLTAGES_ON
        } else {
            plan.push(Step::SendByte(CMD_VOLTAGES_OFF));
            VOLTAGES_OFF
        };
        plan.push(Step::Collect { count: 1, timeout: REPLY_TIMEOUT });
        assert(plan@ =~= set_voltages_steps(on));
        self.begin_gated(
            plan,
            Vec::new(),
            Ending::Status { success, stage: Stage::Voltages, marks_vars: false },
        )
    }

    /// Switches the programming voltages off and on again. Ends with
    /// `Reply::Flag`, true if the programmer confirmed.
    pub fn cycle_programming_voltages(&mut self) -> (first: Action)
        requires
            old(self).wf(),
        ensures
            final(self).wf(),
            final(self).chip() == old(self).chip(),
            (final(self)@, first@) == gated(
                old(self)@,
                query_steps(CMD_CYCLE_VOLTAGES),
                Seq::empty(),
                Ending::Status { success: VOLTAGES_ON, stage: Stage::Voltages, marks_vars: false },
            ),
    {
        let plan = Self::query(CMD_CYCLE_VOLTAGES);
        self.begin_gated(
            plan,
            Vec::new(),
            Ending::Status { success: VOLTAGES_ON, stage: Stage::Voltages, marks_vars: false },
        )
    }

    /// Writes `data` to the ROM of the chip, in blocks of 32 bytes.
    ///
    /// The payload is refused, before anything is sent, if it holds more
    /// words than the ROM or is not a whole number of blocks. Otherwise the
    /// operation ends with `Reply::Flag(true)` once the programmer has
    /// acknowledged every block.
    pub fn program_rom(&mut self, data: Vec<u8>) -> (first: Action)
        requires
            old(self).wf(),
        ensures
            final(self).wf(),
            final(self).chip() == old(self).chip(),
            (final(self)@, first@) == program_rom_start(
                old(self)@,
                old(self).chip().rom_size,
                data@,
            ),
    {
        let word_count: usize = data.len() / 2;
        if word_count > self.vars.rom_size() as usize {
            return self.fail(ProtocolError::SizeConstraint(SizeFault::TooLarge));
        }
        if data.len() % ROM_BLOCK != 0 {
            return self.fail(ProtocolError::SizeConstraint(SizeFault::Misaligned));
        }
        let mut plan: Vec<Step> = Vec::new();
        command_start(&mut plan, 0);
        switch_voltages(&mut plan, true);
        plan.push(Step::SendByte(CMD_PROGRAM_ROM));
        plan.push(Step::SendByte((word_count % 256) as u8));
        plan.push(Step::Expect { byte: YES, timeout: REPLY_TIMEOUT, stage: Stage::Transfer });
        let ghost head = plan@;
        let blocks: usize = data.len() / ROM_BLOCK;
        let mut sent: usize = 0;
        assert(plan@ =~= head + transfer_steps(0));
        while sent < blocks
            invariant
                sent <= blocks,
                blocks * ROM_BLOCK == data@.len(),
                data@.len() <= usize::MAX,
                plan@ == head + transfer_steps(sent as nat),
            decreases blocks - sent,
        {
            plan.push(Step::SendBlock { start: sent * ROM_BLOCK, len: ROM_BLOCK });
            plan.push(Step::Expect { byte: YES, timeout: REPLY_TIMEOUT, stage: Stage::Transfer });
            sent = sent + 1;
            assert(plan@ =~= head + transfer_steps(sent as nat));
        }
        plan.push(Step::Expect { byte: PROCEED, timeout: REPLY_TIMEOUT, stage: Stage::Transfer });
        switch_voltages(&mut plan, false);
        command_end(&mut plan);
        assert(plan@ =~= program_rom_steps(data@.len()));
        proof {
            lemma_program_rom_fits(data@.len());
        }
        self.begin_gated(plan, data, Ending::Fixed(true))
    }

    /// Reads the ROM of the chip, two bytes for each word. Ends with
    /// `Reply::Data`, which is shorter than the ROM if the programmer
    /// stopped sending.
    pub fn read_rom(&mut self) -> (first: Action)
        requires
            old(self).wf(),
        ensures
            final(self).wf(),
            final(self).chip() == old(self).chip(),
            (final(self)@, first@) == gated(
                old(self)@,
                read_steps(CMD_READ_ROM, (2 * old(self).chip().rom_size) as usize),
                Seq::empty(),
                Ending::Data,
            ),
    {
        let count: usize = self.vars.rom_size() as usize * 2;
        let plan = Self::read_memory(CMD_READ_ROM, count);
        self.begin_gated(plan, Vec::new(), Ending::Data)
    }

    /// Reads the data EEPROM of the chip. Ends with `Reply::Data`, which is
    /// shorter than the EEPROM if the programmer stopped sending.
    pub fn read_eeprom(&mut self) -> (first: Action)
        requires
            old(self).wf(),
        ensures
            final(self).wf(),
            final(self).chip() == old(self).chip(),
            (final(self)@, first@) == gated(
                old(self)@,
                read_steps(CMD_READ_EEPROM, old(self).chip().eeprom_size as usize),
                Seq::empty(),
                Ending::Data,
            ),
    {
        let count: usize = self.vars.eeprom_size() as usize;
        let plan = Self::read_memory(CMD_READ_EEPROM, count);
        self.begin_gated(plan, Vec::new(), Ending::Data)
    }

    /// Reads the configuration block of the chip: its identity, its ID
    /// locations and its fuses. Ends with `Reply::Data`.
    pub fn read_configuration(&mut self) -> (first: Action)
        requires
            old(self).wf(),
        ensures
            final(self).wf(),
            final(self).chip() == old(self).chip(),
            (final(self)@, first@) == launch(
                old(self)@,
                read_configuration_steps(),
                Seq::empty(),
                Ending::Data,
            ),
    {
        let mut plan: Vec<Step> = Vec::new();
        command_start(&mut plan, 0);
        switch_voltages(&mut plan, true);
        plan.push(Step::SendByte(CMD_READ_CONFIG));
        plan.push(Step::Expect { byte: CONFIG, timeout: REPLY_TIMEOUT, stage: Stage::Status });
        plan.push(Step::Collect { count: CONFIG_BLOCK, timeout: REPLY_TIMEOUT });
        switch_voltages(&mut plan, false);
        command_end(&mut plan);
        assert(plan@ =~= read_configuration_steps());
        assert(plan_fits(plan@, 0));
        self.begin(plan, Vec::new(), Ending::Data)
    }

    /// Erases the chip. Ends with `Reply::Flag`, true if the programmer
    /// reports that it did.
    pub fn erase_chip(&mut self) -> (first: Action)
        requires
            old(self).wf(),
        ensures
            final(self).wf(),
            final(self).chip() == old(self).chip(),
            (final(self)@, first@) == gated(
                old(self)@,
                query_steps(CMD_ERASE_CHIP),
                Seq::empty(),
                Ending::Status { success: YES, stage: Stage::Status, marks_vars: false },
            ),
    {
        let plan = Self::query(CMD_ERASE_CHIP);
        self.begin_gated(
            plan,
            Vec::new(),
            Ending::Status { success: YES, stage: Stage::Status, marks_vars: false },
        )
    }

    /// Asks whether the ROM is blank, where `high_byte` is the high byte of
    /// a blank word.
    ///
    /// The programmer answers `Y` for blank, `N` or `C` for not blank, and
    /// may first send `B` while it is still scanning, at most once for each
    /// 256 words of ROM after the first. Ends with `Reply::Flag`, true for
    /// blank; any other byte, a `B` too many, or silence is a violation.
    pub fn rom_is_blank(&mut self, high_byte: u8) -> (first: Action)
        requires
            old(self).wf(),
        ensures
            final(self).wf(),
            final(self).chip() == old(self).chip(),
            (final(self)@, first@) == gated(
                old(self)@,
                rom_blank_steps(high_byte),
                Seq::empty(),
                Ending::Scan { budget: scan_budget(old(self).chip().rom_size) },
            ),
    {
        let sections: u16 = self.vars.rom_size() / 256;
        let budget: u16 = if sections >= 1 {
            sections - 1
        } else {
            0
        };
        let mut plan: Vec<Step> = Vec::new();
        command_start(&mut plan, CMD_ROM_BLANK);
        plan.push(Step::SendByte(high_byte));
        plan.push(Step::Collect { count: 1, timeout: REPLY_TIMEOUT });
        assert(plan@ =~= rom_blank_steps(high_byte));
        assert(plan_fits(plan@, 0));
        self.begin_gated(plan, Vec::new(), Ending::Scan { budget })
    }

    /// Asks whether the data EEPROM is blank. Ends with `Reply::Flag`, true
    /// for `Y` and false for `N`; any other answer is a violation.
    pub fn eeprom_is_blank(&mut self) -> (first: Action)
        requires
            old(self).wf(),
        ensures
            final(self).wf(),
            final(self).chip() == old(self).chip(),
            (final(self)@, first@) == gated(
                old(self)@,
                query_steps(CMD_EEPROM_BLANK),
                Seq::empty(),
                Ending::Choice { yes: YES, no: NO },
            ),
    {
        let plan = Self::query(CMD_EEPROM_BLANK);
        self.begin_gated(plan, Vec::new(), Ending::Choice { yes: YES, no: NO })
    }

    /// The plan of a command that is answered by one status byte.
    fn query(command: u8) -> (plan: Vec<Step>)
        ensures
            plan@ == query_steps(command),
            plan@.len() > 0,
            plan_fits(plan@, 0),
    {
        let mut plan: Vec<Step> = Vec::new();
        command_start(&mut plan, command);
        plan.push(Step::Collect { count: 1, timeout: REPLY_TIMEOUT });
        command_end(&mut plan);
        assert(plan@ =~= query_steps(command));
        plan
    }

    /// The plan that reads `count` bytes of a memory.
    fn read_memory(command: u8, count: usize) -> (plan: Vec<Step>)
        ensures
            plan@ == read_steps(command, count),
            plan@.len() > 0,
            plan_fits(plan@, 0),
    {
        let mut plan: Vec<Step> = Vec::new();
        command_start(&mut plan, 0);
        switch_voltages(&mut plan, true);
        plan.push(Step::SendByte(command));
        plan.push(Step::Collect { count, timeout: REPLY_TIMEOUT });
        switch_voltages(&mut plan, false);
        command_end(&mut plan);
        assert(plan@ =~= read_steps(command, count));
        plan
    }
}

/// A payload that breaks a size constraint is refused at once: the first
/// action is already `Finish` with a size fault, so nothing is written, and
/// the session is idle. This holds whether or not the programming variables
/// are initialised.
pub proof fn lemma_size_fault_sends_nothing(session: SessionView, rom_size: u16, data: Seq<u8>)
    requires
        data.len() / 2 > rom_size || data.len() % (ROM_BLOCK as nat) != 0,
    ensures
        program_rom_start(session, rom_size, data).0 == session.idle(),
        program_rom_start(session, rom_size, data).1 matches ActionView::Finish(
            Err(ProtocolErrorView::SizeConstraint(fault)),
        ) && (fault == SizeFault::TooLarge <==> data.len() / 2 > rom_size),
{
}

/// The plan that programs the ROM never sends from beyond its payload.
pub proof fn lemma_program_rom_fits(bytes: nat)
    requires
        bytes % (ROM_BLOCK as nat) == 0,
        bytes <= usize::MAX,
    ensures
        plan_fits(program_rom_steps(bytes), bytes),
        program_rom_steps(bytes).len() > 0,
{
    let blocks = bytes / (ROM_BLOCK as nat);
    let transfer = transfer_steps(blocks);
    assert forall|i: int| 0 <= i < transfer.len() implies fits(#[trigger] transfer[i], bytes) by {
        if i % 2 == 0 {
            assert(i / 2 < blocks);
            assert(ROM_BLOCK * (i / 2) + ROM_BLOCK <= bytes);
        }
    }
    let head = command_start_steps(0) + voltage_steps(true) + seq![
        Step::SendByte(CMD_PROGRAM_ROM),
        Step::SendByte(word_count_byte(bytes)),
        Step::Expect { byte: YES, timeout: REPLY_TIMEOUT, stage: Stage::Transfer },
    ];
    let tail = seq![
        Step::Expect { byte: PROCEED, timeout: REPLY_TIMEOUT, stage: Stage::Transfer },
    ] + voltage_steps(false) + command_end_steps();
    assert(plan_fits(head, bytes));
    assert(plan_fits(tail, bytes));
    lemma_fits_concat(head, transfer, bytes);
    lemma_fits_concat(head + transfer, tail, bytes);
    assert(program_rom_steps(bytes) =~= head + transfer + tail);
}

} // verus!
