use picprog::chipinfo::ChipInfo;
use picprog::message::{Action, Event, Firmware, ProtocolError, Reply, SizeFault, Stage};
use picprog::protocol::{presence_of, vars_payload, ProtocolInterface};
use std::collections::VecDeque;

/// A simulated programmer: it answers each read with the next entry of
/// `replies` (with nothing once they are used up) and records what the
/// host does to it.
#[derive(Debug, Default)]
struct Device {
    replies: VecDeque<Vec<u8>>,
    written: Vec<u8>,
    writes: Vec<Vec<u8>>,
    lines: Vec<bool>,
    pauses: Vec<u64>,
    flushes: usize,
    reads: Vec<(usize, u64)>,
    broken: bool,
}

impl Device {
    fn answering(replies: &[&[u8]]) -> Device {
        Device { replies: replies.iter().map(|r| r.to_vec()).collect(), ..Device::default() }
    }

    fn carry_out(&mut self, action: Action) -> Event {
        if self.broken {
            return Event::Failed;
        }
        match action {
            Action::Line(level) => {
                self.lines.push(level);
                Event::Done
            }
            Action::Pause(millis) => {
                self.pauses.push(millis);
                Event::Done
            }
            Action::Flush => {
                self.flushes += 1;
                Event::Done
            }
            Action::Write(bytes) => {
                self.written.extend_from_slice(&bytes);
                self.writes.push(bytes);
                Event::Done
            }
            Action::Read { count, timeout } => {
                self.reads.push((count, timeout));
                Event::Received(self.replies.pop_front().unwrap_or_default())
            }
            Action::Finish(_) => unreachable!(),
        }
    }
}

fn run(
    session: &mut ProtocolInterface,
    first: Action,
    device: &mut Device,
) -> Result<Reply, ProtocolError> {
    let mut action = first;
    let mut steps = 0;
    loop {
        assert!(steps < 100_000, "the operation does not end");
        steps += 1;
        let event = match action {
            Action::Finish(outcome) => {
                assert!(!session.is_busy());
                return outcome;
            }
            other => {
                assert!(session.is_busy());
                device.carry_out(other)
            }
        };
        action = session.advance(event);
    }
}

fn fresh() -> ProtocolInterface {
    ProtocolInterface::new(ChipInfo::new())
}

/// A session for `chip` whose programming variables are initialised.
fn initialised_for(chip: ChipInfo) -> ProtocolInterface {
    let mut session = ProtocolInterface::new(chip);
    let mut device = Device::answering(&[b"Q", b"P", b"I", b"Q"]);
    let first = session.init_programming_vars();
    assert_eq!(run(&mut session, first, &mut device), Ok(Reply::Flag(true)));
    assert!(session.vars_set());
    session
}

fn initialised() -> ProtocolInterface {
    initialised_for(ChipInfo::new())
}

fn violation(stage: Stage, expected: u8, received: &[u8]) -> Result<Reply, ProtocolError> {
    Err(ProtocolError::Violation { stage, expected, received: received.to_vec() })
}

#[test]
fn new_session_is_idle_and_uninitialised() {
    let session = fresh();
    assert!(!session.is_busy());
    assert!(!session.vars_set());
    assert!(!session.fuses_set());
    assert_eq!(session.vars().name(), "16F877A");
}

#[test]
fn reset_finds_a_k149_b() {
    let mut session = fresh();
    let mut device = Device::answering(&[&[0x42, 0x02]]);
    let first = session.reset();
    assert_eq!(first, Action::Line(true));
    let outcome = run(&mut session, first, &mut device);
    assert_eq!(
        outcome,
        Ok(Reply::Presence { present: true, firmware: Some(Firmware::K149B) })
    );
    assert_eq!(Firmware::K149B.name(), "K149-B");
    assert_eq!(device.lines, vec![true, false]);
    assert_eq!(device.pauses, vec![100, 100]);
    assert_eq!(device.flushes, 1);
    assert_eq!(device.reads, vec![(2, 300)]);
    assert!(device.written.is_empty());
}

#[test]
fn reset_succeeds_on_the_second_attempt() {
    let mut session = fresh();
    let mut device = Device::answering(&[&[], &[0x42, 0x00]]);
    let first = session.reset();
    let outcome = run(&mut session, first, &mut device);
    assert_eq!(outcome, Ok(Reply::Presence { present: true, firmware: Some(Firmware::K128) }));
    assert_eq!(device.lines, vec![true, false, true]);
    assert_eq!(device.pauses, vec![100, 100, 100]);
    assert_eq!(device.flushes, 1);
    assert_eq!(device.reads, vec![(2, 300), (2, 300)]);
}

#[test]
fn reset_gives_up_after_the_second_attempt() {
    let mut session = fresh();
    let mut device = Device::answering(&[&[], &[], &[0x42, 0x00]]);
    let first = session.reset();
    let outcome = run(&mut session, first, &mut device);
    assert_eq!(outcome, Ok(Reply::Presence { present: false, firmware: None }));
    assert_eq!(device.reads.len(), 2);
}

#[test]
fn reset_does_not_retry_after_a_wrong_answer() {
    let mut session = fresh();
    let mut device = Device::answering(&[&[0x41], &[0x42, 0x00]]);
    let first = session.reset();
    let outcome = run(&mut session, first, &mut device);
    assert_eq!(outcome, Ok(Reply::Presence { present: false, firmware: None }));
    assert_eq!(device.reads.len(), 1);
}

#[test]
fn reset_refuses_an_unknown_firmware() {
    let mut session = fresh();
    let mut device = Device::answering(&[&[0x42, 0x04]]);
    let first = session.reset();
    assert_eq!(run(&mut session, first, &mut device), Err(ProtocolError::Configuration(4)));
}

#[test]
fn presence_of_each_answer() {
    let present = |firmware| Ok(Reply::Presence { present: true, firmware });
    let absent = Ok(Reply::Presence { present: false, firmware: None });
    assert_eq!(presence_of(&vec![]), absent);
    assert_eq!(presence_of(&vec![0x42]), present(None));
    assert_eq!(presence_of(&vec![0x41]), absent);
    assert_eq!(presence_of(&vec![0x42, 0]), present(Some(Firmware::K128)));
    assert_eq!(presence_of(&vec![0x42, 1]), present(Some(Firmware::K149A)));
    assert_eq!(presence_of(&vec![0x42, 2]), present(Some(Firmware::K149B)));
    assert_eq!(presence_of(&vec![0x42, 3]), present(Some(Firmware::K150)));
    assert_eq!(presence_of(&vec![0x42, 4]), Err(ProtocolError::Configuration(4)));
    assert_eq!(presence_of(&vec![0x42, 0xFF]), Err(ProtocolError::Configuration(0xFF)));
    assert_eq!(presence_of(&vec![0x00, 0x09]), absent);
    assert_eq!(presence_of(&vec![0x42, 0x09, 0x00]), present(None));
}

#[test]
fn firmware_table() {
    assert_eq!(Firmware::from_index(0), Some(Firmware::K128));
    assert_eq!(Firmware::from_index(1), Some(Firmware::K149A));
    assert_eq!(Firmware::from_index(2), Some(Firmware::K149B));
    assert_eq!(Firmware::from_index(3), Some(Firmware::K150));
    for index in 4..=u8::MAX {
        assert_eq!(Firmware::from_index(index), None);
    }
    assert_eq!(Firmware::K128.name(), "K128");
    assert_eq!(Firmware::K149A.name(), "K149-A");
    assert_eq!(Firmware::K149B.name(), "K149-B");
    assert_eq!(Firmware::K150.name(), "K150");
}

#[test]
fn vars_payload_of_an_8k_chip() {
    let chip = ChipInfo {
        rom_size: 0x2000,
        eeprom_size: 0x64,
        core_type: 9,
        program_delay: 0xA1,
        power_sequence: 0xA2,
        erase_mode: 0xA3,
        program_tries: 0xA4,
        over_program: 0xA5,
        ..ChipInfo::new()
    };
    assert_eq!(
        vars_payload(&chip, false),
        vec![0x20, 0x00, 0x00, 0x64, 0x09, 0x00, 0xA1, 0xA2, 0xA3, 0xA4, 0xA5]
    );
}

#[test]
fn vars_payload_flag_bits() {
    let flags = |calibration, band_gap, core_type, fast| {
        let chip = ChipInfo {
            flag_calibration_value_in_rom: calibration,
            flag_band_gap_fuse: band_gap,
            core_type,
            ..ChipInfo::new()
        };
        vars_payload(&chip, fast)[5]
    };
    assert_eq!(flags(false, false, 9, false), 0);
    assert_eq!(flags(true, false, 9, false), 1);
    assert_eq!(flags(false, true, 9, false), 2);
    assert_eq!(flags(false, false, 1, false), 4);
    assert_eq!(flags(false, false, 9, true), 8);
    assert_eq!(flags(true, true, 1, true), 15);
    assert_eq!(flags(true, false, 2, true), 9);
}

#[test]
fn vars_payload_largest_sizes() {
    let chip = ChipInfo { rom_size: 0xFFFF, eeprom_size: 0xFF, ..ChipInfo::new() };
    assert_eq!(&vars_payload(&chip, false)[..4], &[0xFF, 0xFF, 0x00, 0xFF]);
}

#[test]
fn init_programming_vars_sends_the_payload() {
    let mut session = fresh();
    let mut device = Device::answering(&[b"Q", b"P", b"I", b"Q"]);
    let first = session.init_programming_vars();
    assert_eq!(first, Action::Write(vec![0x01]));
    assert_eq!(run(&mut session, first, &mut device), Ok(Reply::Flag(true)));
    assert!(session.vars_set());
    assert_eq!(
        device.writes,
        vec![
            vec![0x01],
            vec![b'P'],
            vec![3],
            vec![0x07, 0xD0, 0x00, 0x64, 9, 0, 10, 1, 5, 1, 1],
            vec![0x01],
        ]
    );
    assert_eq!(device.reads, vec![(1, 10_000), (1, 5_000), (1, 5_000), (1, 10_000)]);
}

#[test]
fn init_programming_vars_sets_the_fast_flag_from_the_sequence_name() {
    let chip = ChipInfo { power_sequence_str: "VccFastVpp2", ..ChipInfo::new() };
    let mut session = ProtocolInterface::new(chip);
    let mut device = Device::answering(&[b"Q", b"P", b"I", b"Q"]);
    let first = session.init_programming_vars();
    assert_eq!(run(&mut session, first, &mut device), Ok(Reply::Flag(true)));
    assert_eq!(device.writes[3][5], 8);
}

#[test]
fn init_programming_vars_is_false_for_another_byte() {
    let mut session = fresh();
    let mut device = Device::answering(&[b"Q", b"P", b"i", b"Q"]);
    let first = session.init_programming_vars();
    assert_eq!(run(&mut session, first, &mut device), Ok(Reply::Flag(false)));
    assert!(!session.vars_set());
    assert_eq!(*device.writes.last().unwrap(), vec![0x01]);
}

#[test]
fn init_programming_vars_without_an_answer() {
    let mut session = fresh();
    let mut device = Device::answering(&[b"Q", b"P", b"", b"Q"]);
    let first = session.init_programming_vars();
    assert_eq!(run(&mut session, first, &mut device), violation(Stage::Status, b'I', &[]));
    assert!(!session.vars_set());
}

#[test]
fn vars_stay_set_after_a_later_refusal() {
    let mut session = initialised();
    let mut device = Device::answering(&[b"Q", b"P", b"x", b"Q"]);
    let first = session.init_programming_vars();
    assert_eq!(run(&mut session, first, &mut device), Ok(Reply::Flag(false)));
    assert!(session.vars_set());
}

#[test]
fn command_start_needs_a_ready_device() {
    let mut session = fresh();
    let mut device = Device::answering(&[b"X"]);
    let first = session.init_programming_vars();
    assert_eq!(run(&mut session, first, &mut device), violation(Stage::Prologue, b'Q', b"X"));
    assert_eq!(device.written, vec![0x01]);
}

#[test]
fn command_start_needs_the_proceed_echo() {
    let mut session = fresh();
    let mut device = Device::answering(&[b"Q", b"Q"]);
    let first = session.init_programming_vars();
    assert_eq!(run(&mut session, first, &mut device), violation(Stage::StartAck, b'P', b"Q"));
    assert_eq!(device.written, vec![0x01, b'P']);
}

#[test]
fn command_start_without_any_echo() {
    let mut session = fresh();
    let mut device = Device::answering(&[b"Q"]);
    let first = session.init_programming_vars();
    assert_eq!(run(&mut session, first, &mut device), violation(Stage::StartAck, b'P', &[]));
}

#[test]
fn command_end_with_an_unexpected_answer() {
    let mut session = fresh();
    let mut device = Device::answering(&[b"Q", b"P", b"I", b"Z"]);
    let first = session.init_programming_vars();
    assert_eq!(run(&mut session, first, &mut device), violation(Stage::EndAck, b'Q', b"Z"));
    assert!(!session.vars_set());
}

#[test]
fn command_end_without_an_answer() {
    let mut session = fresh();
    let mut device = Device::answering(&[b"Q", b"P", b"I"]);
    let first = session.init_programming_vars();
    assert_eq!(run(&mut session, first, &mut device), violation(Stage::EndAck, b'Q', &[]));
}

#[test]
fn an_acknowledgement_of_two_bytes_is_a_violation() {
    let mut session = fresh();
    let mut device = Device::answering(&[b"QQ"]);
    let first = session.init_programming_vars();
    assert_eq!(run(&mut session, first, &mut device), violation(Stage::Prologue, b'Q', b"QQ"));
}

#[test]
fn gated_operations_need_the_vars() {
    let refused = Action::Finish(Err(ProtocolError::Precondition));
    let mut session = fresh();
    assert_eq!(session.set_programming_voltages(true), refused);
    assert_eq!(session.cycle_programming_voltages(), refused);
    assert_eq!(session.program_rom(vec![0; 32]), refused);
    assert_eq!(session.read_rom(), refused);
    assert_eq!(session.read_eeprom(), refused);
    assert_eq!(session.erase_chip(), refused);
    assert_eq!(session.rom_is_blank(0x3F), refused);
    assert_eq!(session.eeprom_is_blank(), refused);
    assert!(!session.is_busy());
}

#[test]
fn set_programming_voltages_on() {
    let mut session = initialised();
    let mut device = Device::answering(&[b"V"]);
    let first = session.set_programming_voltages(true);
    assert_eq!(run(&mut session, first, &mut device), Ok(Reply::Flag(true)));
    assert_eq!(device.written, vec![4]);
    assert_eq!(device.reads, vec![(1, 5_000)]);
}

#[test]
fn set_programming_voltages_off() {
    let mut session = initialised();
    let mut device = Device::answering(&[b"v"]);
    let first = session.set_programming_voltages(false);
    assert_eq!(run(&mut session, first, &mut device), Ok(Reply::Flag(true)));
    assert_eq!(device.written, vec![5]);
}

#[test]
fn set_programming_voltages_wrong_answer() {
    let mut session = initialised();
    let mut device = Device::answering(&[b"v"]);
    let first = session.set_programming_voltages(true);
    assert_eq!(run(&mut session, first, &mut device), Ok(Reply::Flag(false)));
    let mut device = Device::answering(&[b"V"]);
    let first = session.set_programming_voltages(false);
    assert_eq!(run(&mut session, first, &mut device), Ok(Reply::Flag(false)));
}

#[test]
fn set_programming_voltages_without_an_answer() {
    let mut session = initialised();
    let mut device = Device::answering(&[]);
    let first = session.set_programming_voltages(true);
    assert_eq!(run(&mut session, first, &mut device), violation(Stage::Voltages, b'V', &[]));
    let mut device = Device::answering(&[]);
    let first = session.set_programming_voltages(false);
    assert_eq!(run(&mut session, first, &mut device), violation(Stage::Voltages, b'v', &[]));
}

#[test]
fn cycle_programming_voltages_round() {
    let mut session = initialised();
    let mut device = Device::answering(&[b"Q", b"P", b"V", b"Q"]);
    let first = session.cycle_programming_voltages();
    assert_eq!(run(&mut session, first, &mut device), Ok(Reply::Flag(true)));
    assert_eq!(device.written, vec![0x01, b'P', 6, 0x01]);
}

#[test]
fn erase_chip_round() {
    let mut session = initialised();
    let mut device = Device::answering(&[b"Q", b"P", b"Y", b"Q"]);
    let first = session.erase_chip();
    assert_eq!(run(&mut session, first, &mut device), Ok(Reply::Flag(true)));
    assert_eq!(device.written, vec![0x01, b'P', 14, 0x01]);
    let mut device = Device::answering(&[b"Q", b"P", b"N", b"Q"]);
    let first = session.erase_chip();
    assert_eq!(run(&mut session, first, &mut device), Ok(Reply::Flag(false)));
}

#[test]
fn program_rom_refuses_fifteen_words_before_any_write() {
    let mut session = initialised();
    let first = session.program_rom(vec![0; 30]);
    assert_eq!(
        first,
        Action::Finish(Err(ProtocolError::SizeConstraint(SizeFault::Misaligned)))
    );
    assert!(!session.is_busy());
}

#[test]
fn program_rom_refuses_fifteen_words_in_a_fresh_session() {
    let mut session = fresh();
    let mut device = Device::default();
    let first = session.program_rom(vec![0; 30]);
    assert_eq!(
        run(&mut session, first, &mut device),
        Err(ProtocolError::SizeConstraint(SizeFault::Misaligned))
    );
    assert!(device.writes.is_empty());
    assert!(device.reads.is_empty());
}

#[test]
fn program_rom_refuses_an_odd_number_of_bytes() {
    let mut session = initialised();
    let first = session.program_rom(vec![0; 33]);
    assert_eq!(
        first,
        Action::Finish(Err(ProtocolError::SizeConstraint(SizeFault::Misaligned)))
    );
}

#[test]
fn program_rom_refuses_more_words_than_the_rom_holds() {
    let mut session = initialised_for(ChipInfo { rom_size: 16, ..ChipInfo::new() });
    let first = session.program_rom(vec![0; 64]);
    assert_eq!(first, Action::Finish(Err(ProtocolError::SizeConstraint(SizeFault::TooLarge))));
    let first = session.program_rom(vec![0; 34]);
    assert_eq!(first, Action::Finish(Err(ProtocolError::SizeConstraint(SizeFault::TooLarge))));
    let first = session.program_rom(vec![0; 32]);
    assert_eq!(first, Action::Write(vec![0x01]));
}

#[test]
fn program_rom_sends_every_block() {
    let data: Vec<u8> = (0..64).collect();
    let mut session = initialised();
    let mut device = Device::answering(&[b"Q", b"P", b"V", b"Y", b"Y", b"Y", b"P", b"v", b"Q"]);
    let first = session.program_rom(data.clone());
    assert_eq!(run(&mut session, first, &mut device), Ok(Reply::Flag(true)));
    assert_eq!(
        device.writes,
        vec![
            vec![0x01],
            vec![b'P'],
            vec![4],
            vec![7],
            vec![32],
            data[..32].to_vec(),
            data[32..].to_vec(),
            vec![5],
            vec![0x01],
        ]
    );
    assert_eq!(device.reads.len(), 9);
}

#[test]
fn program_rom_with_nothing_to_send() {
    let mut session = initialised();
    let mut device = Device::answering(&[b"Q", b"P", b"V", b"Y", b"P", b"v", b"Q"]);
    let first = session.program_rom(vec![]);
    assert_eq!(run(&mut session, first, &mut device), Ok(Reply::Flag(true)));
    assert_eq!(device.written, vec![0x01, b'P', 4, 7, 0, 5, 0x01]);
}

#[test]
fn program_rom_word_count_is_one_byte_wide() {
    let mut session = initialised();
    let mut device = Device::answering(&[b"Q", b"P", b"V"]);
    let first = session.program_rom(vec![0; 544]);
    let _ = run(&mut session, first, &mut device);
    assert_eq!(device.writes[4], vec![16]);
}

#[test]
fn program_rom_stops_at_a_block_that_is_not_acknowledged() {
    let mut session = initialised();
    let mut device = Device::answering(&[b"Q", b"P", b"V", b"Y", b"Y", b"N"]);
    let first = session.program_rom(vec![0; 96]);
    assert_eq!(run(&mut session, first, &mut device), violation(Stage::Transfer, b'Y', b"N"));
    assert_eq!(device.writes.len(), 7);
}

#[test]
fn program_rom_needs_the_final_proceed() {
    let mut session = initialised();
    let mut device = Device::answering(&[b"Q", b"P", b"V", b"Y", b"Y", b"Y"]);
    let first = session.program_rom(vec![0; 32]);
    assert_eq!(run(&mut session, first, &mut device), violation(Stage::Transfer, b'P', b"Y"));
}

#[test]
fn read_rom_returns_the_bytes() {
    let rom: Vec<u8> = (0..4000u32).map(|i| (i % 251) as u8).collect();
    let mut session = initialised();
    let mut device = Device::answering(&[b"Q", b"P", b"V", &rom, b"v", b"Q"]);
    let first = session.read_rom();
    assert_eq!(run(&mut session, first, &mut device), Ok(Reply::Data(rom)));
    assert_eq!(device.written, vec![0x01, b'P', 4, 11, 5, 0x01]);
    assert_eq!(device.reads[3], (4000, 5_000));
}

#[test]
fn read_rom_of_the_largest_rom() {
    let mut session = initialised_for(ChipInfo { rom_size: 0xFFFF, ..ChipInfo::new() });
    let mut device = Device::answering(&[b"Q", b"P", b"V", &[], b"v", b"Q"]);
    let first = session.read_rom();
    assert_eq!(run(&mut session, first, &mut device), Ok(Reply::Data(vec![])));
    assert_eq!(device.reads[3], (131_070, 5_000));
}

#[test]
fn read_rom_may_come_back_short() {
    let mut session = initialised();
    let mut device = Device::answering(&[b"Q", b"P", b"V", &[1, 2, 3], b"v", b"Q"]);
    let first = session.read_rom();
    assert_eq!(run(&mut session, first, &mut device), Ok(Reply::Data(vec![1, 2, 3])));
}

#[test]
fn read_rom_goes_on_after_a_strange_voltage_answer() {
    let mut session = initialised();
    let mut device = Device::answering(&[b"Q", b"P", b"x", &[9], b"y", b"Q"]);
    let first = session.read_rom();
    assert_eq!(run(&mut session, first, &mut device), Ok(Reply::Data(vec![9])));
}

#[test]
fn read_rom_needs_an_answer_to_the_voltages() {
    let mut session = initialised();
    let mut device = Device::answering(&[b"Q", b"P", b""]);
    let first = session.read_rom();
    assert_eq!(run(&mut session, first, &mut device), violation(Stage::Voltages, b'V', &[]));
    let mut device = Device::answering(&[b"Q", b"P", b"V", &[1], b""]);
    let first = session.read_rom();
    assert_eq!(run(&mut session, first, &mut device), violation(Stage::Voltages, b'v', &[]));
}

#[test]
fn read_eeprom_returns_the_bytes() {
    let eeprom: Vec<u8> = (0..100).collect();
    let mut session = initialised();
    let mut device = Device::answering(&[b"Q", b"P", b"V", &eeprom, b"v", b"Q"]);
    let first = session.read_eeprom();
    assert_eq!(run(&mut session, first, &mut device), Ok(Reply::Data(eeprom)));
    assert_eq!(device.written, vec![0x01, b'P', 4, 12, 5, 0x01]);
    assert_eq!(device.reads[3], (100, 5_000));
}

#[test]
fn read_configuration_returns_the_block() {
    let block: Vec<u8> = (100..126).collect();
    let mut session = fresh();
    let mut device = Device::answering(&[b"Q", b"P", b"V", b"C", &block, b"v", b"Q"]);
    let first = session.read_configuration();
    assert_eq!(run(&mut session, first, &mut device), Ok(Reply::Data(block)));
    assert_eq!(device.written, vec![0x01, b'P', 4, 13, 5, 0x01]);
    assert_eq!(device.reads[3], (1, 5_000));
    assert_eq!(device.reads[4], (26, 5_000));
}

#[test]
fn read_configuration_needs_its_acknowledgement() {
    let mut session = fresh();
    let mut device = Device::answering(&[b"Q", b"P", b"V", b"Y"]);
    let first = session.read_configuration();
    assert_eq!(run(&mut session, first, &mut device), violation(Stage::Status, b'C', b"Y"));
    let mut device = Device::answering(&[b"Q", b"P", b"V"]);
    let first = session.read_configuration();
    assert_eq!(run(&mut session, first, &mut device), violation(Stage::Status, b'C', &[]));
}

#[test]
fn rom_is_blank_yes() {
    let mut session = initialised();
    let mut device = Device::answering(&[b"Q", b"P", b"Y", b"Q"]);
    let first = session.rom_is_blank(0x3F);
    assert_eq!(run(&mut session, first, &mut device), Ok(Reply::Flag(true)));
    assert_eq!(device.written, vec![0x01, b'P', 15, 0x3F, 0x01]);
}

#[test]
fn rom_is_blank_no() {
    let mut session = initialised();
    let mut device = Device::answering(&[b"Q", b"P", b"N", b"Q"]);
    let first = session.rom_is_blank(0xFF);
    assert_eq!(run(&mut session, first, &mut device), Ok(Reply::Flag(false)));
    assert_eq!(device.written, vec![0x01, b'P', 15, 0xFF, 0x01]);
    let mut device = Device::answering(&[b"Q", b"P", b"C", b"Q"]);
    let first = session.rom_is_blank(0xFF);
    assert_eq!(run(&mut session, first, &mut device), Ok(Reply::Flag(false)));
}

#[test]
fn rom_is_blank_unmapped_byte() {
    let mut session = initialised();
    let mut device = Device::answering(&[b"Q", b"P", &[0x00], b"Q"]);
    let first = session.rom_is_blank(0xFF);
    assert_eq!(run(&mut session, first, &mut device), violation(Stage::Status, b'Y', &[0x00]));
    assert_eq!(device.written, vec![0x01, b'P', 15, 0xFF]);
}

#[test]
fn rom_is_blank_without_an_answer() {
    let mut session = initialised();
    let mut device = Device::answering(&[b"Q", b"P"]);
    let first = session.rom_is_blank(0xFF);
    assert_eq!(run(&mut session, first, &mut device), violation(Stage::Status, b'Y', &[]));
}

#[test]
fn rom_is_blank_waits_while_the_device_scans() {
    let mut session = initialised();
    let mut device = Device::answering(&[b"Q", b"P", b"B", b"B", b"B", b"Y", b"Q"]);
    let first = session.rom_is_blank(0xFF);
    assert_eq!(run(&mut session, first, &mut device), Ok(Reply::Flag(true)));
    assert_eq!(device.reads.len(), 7);
}

#[test]
fn rom_is_blank_counts_the_busy_bytes() {
    let mut session = initialised_for(ChipInfo { rom_size: 768, ..ChipInfo::new() });
    let mut device = Device::answering(&[b"Q", b"P", b"B", b"B", b"N", b"Q"]);
    let first = session.rom_is_blank(0xFF);
    assert_eq!(run(&mut session, first, &mut device), Ok(Reply::Flag(false)));
    let mut device = Device::answering(&[b"Q", b"P", b"B", b"B", b"B", b"Y", b"Q"]);
    let first = session.rom_is_blank(0xFF);
    assert_eq!(run(&mut session, first, &mut device), violation(Stage::Status, b'Y', b"B"));
    assert_eq!(device.reads.len(), 5);
}

#[test]
fn rom_is_blank_small_rom_allows_no_busy_byte() {
    for rom_size in [0u16, 100, 255, 256, 511] {
        let mut session = initialised_for(ChipInfo { rom_size, ..ChipInfo::new() });
        let mut device = Device::answering(&[b"Q", b"P", b"B", b"Y", b"Q"]);
        let first = session.rom_is_blank(0xFF);
        assert_eq!(run(&mut session, first, &mut device), violation(Stage::Status, b'Y', b"B"));
    }
}

#[test]
fn eeprom_is_blank_yes_and_no() {
    let mut session = initialised();
    let mut device = Device::answering(&[b"Q", b"P", b"Y", b"Q"]);
    let first = session.eeprom_is_blank();
    assert_eq!(run(&mut session, first, &mut device), Ok(Reply::Flag(true)));
    assert_eq!(device.written, vec![0x01, b'P', 16, 0x01]);
    let mut device = Device::answering(&[b"Q", b"P", b"N", b"Q"]);
    let first = session.eeprom_is_blank();
    assert_eq!(run(&mut session, first, &mut device), Ok(Reply::Flag(false)));
}

#[test]
fn eeprom_is_blank_other_answers() {
    let mut session = initialised();
    let mut device = Device::answering(&[b"Q", b"P", b"C", b"Q"]);
    let first = session.eeprom_is_blank();
    assert_eq!(run(&mut session, first, &mut device), violation(Stage::Status, b'Y', b"C"));
    let mut device = Device::answering(&[b"Q", b"P", b"", b"Q"]);
    let first = session.eeprom_is_blank();
    assert_eq!(run(&mut session, first, &mut device), violation(Stage::Status, b'Y', &[]));
}

#[test]
fn echo_collects_the_answers() {
    let mut session = fresh();
    let mut device = Device::answering(&[b"Q", b"P", b"h", b"i", b"Q"]);
    let first = session.echo("hi");
    assert_eq!(run(&mut session, first, &mut device), Ok(Reply::Data(b"hi".to_vec())));
    assert_eq!(device.written, vec![0x01, b'P', 2, b'h', 2, b'i', 0x01]);
    assert_eq!(
        device.reads,
        vec![(1, 10_000), (1, 5_000), (1, 5_000), (1, 5_000), (1, 10_000)]
    );
}

#[test]
fn echo_of_nothing() {
    let mut session = fresh();
    let mut device = Device::answering(&[b"Q", b"P", b"Q"]);
    let first = session.echo("");
    assert_eq!(run(&mut session, first, &mut device), Ok(Reply::Data(vec![])));
    assert_eq!(device.written, vec![0x01, b'P', 0x01]);
}

#[test]
fn echo_keeps_what_arrives() {
    let mut session = fresh();
    let mut device = Device::answering(&[b"Q", b"P", b"a", b"", b"c", b"Q"]);
    let first = session.echo("abc");
    assert_eq!(run(&mut session, first, &mut device), Ok(Reply::Data(b"ac".to_vec())));
}

#[test]
fn echo_sends_the_low_byte_of_a_character() {
    let mut session = fresh();
    let mut device = Device::answering(&[b"Q", b"P", b"", b"", b"Q"]);
    let first = session.echo("\u{e9}\u{20ac}");
    assert_eq!(run(&mut session, first, &mut device), Ok(Reply::Data(vec![])));
    assert_eq!(device.written, vec![0x01, b'P', 2, 0xE9, 2, 0xAC, 0x01]);
}

#[test]
fn a_broken_transport_ends_the_operation() {
    let mut session = initialised();
    let mut device = Device { broken: true, ..Device::default() };
    let first = session.read_rom();
    assert_eq!(run(&mut session, first, &mut device), Err(ProtocolError::Transport));
    assert!(session.vars_set());
}

#[test]
fn a_failed_read_ends_the_operation() {
    let mut session = fresh();
    let first = session.reset();
    assert_eq!(first, Action::Line(true));
    assert_eq!(session.advance(Event::Done), Action::Pause(100));
    assert_eq!(session.advance(Event::Done), Action::Flush);
    assert_eq!(session.advance(Event::Done), Action::Line(false));
    assert_eq!(session.advance(Event::Done), Action::Pause(100));
    assert_eq!(session.advance(Event::Done), Action::Read { count: 2, timeout: 300 });
    assert_eq!(session.advance(Event::Failed), Action::Finish(Err(ProtocolError::Transport)));
    assert!(!session.is_busy());
}

#[test]
fn an_idle_session_refuses_events() {
    let mut session = fresh();
    let refused = Action::Finish(Err(ProtocolError::Sequence));
    assert_eq!(session.advance(Event::Done), refused);
    assert_eq!(session.advance(Event::Received(vec![1])), refused);
    assert_eq!(session.advance(Event::Failed), refused);
}

#[test]
fn bytes_do_not_answer_a_write() {
    let mut session = fresh();
    assert_eq!(session.init_programming_vars(), Action::Write(vec![0x01]));
    assert_eq!(
        session.advance(Event::Received(vec![b'Q'])),
        Action::Finish(Err(ProtocolError::Sequence))
    );
    assert!(!session.is_busy());
}

#[test]
fn done_does_not_answer_a_read() {
    let mut session = fresh();
    assert_eq!(session.init_programming_vars(), Action::Write(vec![0x01]));
    assert_eq!(session.advance(Event::Done), Action::Read { count: 1, timeout: 10_000 });
    assert_eq!(session.advance(Event::Done), Action::Finish(Err(ProtocolError::Sequence)));
    assert!(!session.is_busy());
}

#[test]
fn a_new_operation_replaces_the_one_in_progress() {
    let mut session = fresh();
    assert_eq!(session.echo("x"), Action::Write(vec![0x01]));
    assert_eq!(session.advance(Event::Done), Action::Read { count: 1, timeout: 10_000 });
    let mut device = Device::answering(&[&[0x42, 0x03]]);
    let first = session.reset();
    assert_eq!(
        run(&mut session, first, &mut device),
        Ok(Reply::Presence { present: true, firmware: Some(Firmware::K150) })
    );
}
