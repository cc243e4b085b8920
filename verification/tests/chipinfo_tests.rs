use picprog::chipinfo::{is_fast_sequence, ChipInfo, Fuse, FuseOption};

fn with_core_type(core_type: u8) -> ChipInfo {
    ChipInfo { core_type, ..ChipInfo::new() }
}

fn with_power_sequence(name: &'static str) -> ChipInfo {
    ChipInfo { power_sequence_str: name, ..ChipInfo::new() }
}

fn option_pairs(fuse: &Fuse) -> Vec<(&'static str, u16)> {
    fuse.options.iter().map(|o| (o.name, o.value)).collect()
}

#[test]
fn new_is_the_16f877a() {
    let chip = ChipInfo::new();
    assert_eq!(chip.name(), "16F877A");
    assert!(chip.included);
    assert_eq!(chip.socket_image, "socket pin 1");
    assert_eq!(chip.erase_mode(), 5);
    assert!(chip.flash_chip());
    assert_eq!(chip.power_sequence(), 1);
    assert_eq!(chip.power_sequence_str(), "VccVpp1");
    assert_eq!(chip.program_delay(), 10);
    assert_eq!(chip.program_tries(), 1);
    assert_eq!(chip.over_program(), 1);
    assert_eq!(chip.core_type(), 9);
    assert_eq!(chip.rom_size(), 2000);
    assert_eq!(chip.eeprom_size(), 100);
    assert_eq!(chip.fuse_blank(), 0x3FFF);
    assert!(!chip.cpwarn());
    assert!(!chip.flag_calibration_value_in_rom());
    assert!(!chip.flag_band_gap_fuse());
    assert!(!chip.icsp_only());
    assert_eq!(chip.chip_id(), 0x0E20);
}

#[test]
fn new_derived_values() {
    let chip = ChipInfo::new();
    assert_eq!(chip.core_bits(), 14);
    assert!(!chip.flag_18f_single_panel_access_mode());
    assert!(!chip.flag_vcc_vpp_delay());
}

#[test]
fn new_fuse_table() {
    let chip = ChipInfo::new();
    let fuses = chip.fuses();
    let names: Vec<&str> = fuses.iter().map(|f| f.name).collect();
    assert_eq!(
        names,
        vec![
            "WDT",
            "PWRTE",
            "BODEN",
            "LVP",
            "CPD",
            "WRT Enable",
            "DEBUG",
            "Oscillator",
            "Code Protect"
        ]
    );
    assert!(fuses.iter().all(|f| f.current_option == 0));
    assert_eq!(option_pairs(&fuses[0]), vec![("Enabled", 0x3FFF), ("Disabled", 0x3FFB)]);
    assert_eq!(option_pairs(&fuses[1]), vec![("Enabled", 0x3FBF), ("Disabled", 0x3FFF)]);
    assert_eq!(option_pairs(&fuses[2]), vec![("Enabled", 0x3FFF), ("Disabled", 0x3FBF)]);
    assert_eq!(option_pairs(&fuses[3]), vec![("Enabled", 0x3FFF), ("Disabled", 0x3F7F)]);
    assert_eq!(option_pairs(&fuses[4]), vec![("Enabled", 0x3EFF), ("Disabled", 0x3FFF)]);
    assert_eq!(
        option_pairs(&fuses[5]),
        vec![
            ("Enabled", 0x3FFF),
            ("WRT_256", 0x3DFF),
            ("WRT_1FOURTH", 0x3BFF),
            ("WRT_HALF", 0x39FF)
        ]
    );
    assert_eq!(option_pairs(&fuses[6]), vec![("Enabled", 0x37FF), ("Disabled", 0x3FFF)]);
    assert_eq!(
        option_pairs(&fuses[7]),
        vec![("RC", 0x3FFF), ("HS", 0x3FFE), ("XT", 0x3FFD), ("LP", 0x3FFC)]
    );
    assert_eq!(option_pairs(&fuses[8]), vec![("Enabled", 0x1FFF), ("Disabled", 0x3FFF)]);
}

#[test]
fn fuse_builders() {
    let option = FuseOption::new("HS", 0x3FFE);
    assert_eq!((option.name, option.value), ("HS", 0x3FFE));
    let switch = Fuse::switch("WDT", 1, 2);
    assert_eq!(switch.name, "WDT");
    assert_eq!(switch.current_option, 0);
    assert_eq!(option_pairs(&switch), vec![("Enabled", 1), ("Disabled", 2)]);
    let dial = Fuse::dial(
        "Oscillator",
        FuseOption::new("a", 1),
        FuseOption::new("b", 2),
        FuseOption::new("c", 3),
        FuseOption::new("d", 4),
    );
    assert_eq!(dial.name, "Oscillator");
    assert_eq!(dial.current_option, 0);
    assert_eq!(option_pairs(&dial), vec![("a", 1), ("b", 2), ("c", 3), ("d", 4)]);
}

#[test]
fn core_bits_of_sixteen_bit_cores() {
    for core_type in [1u8, 2, 4] {
        assert_eq!(with_core_type(core_type).core_bits(), 16);
    }
}

#[test]
fn core_bits_of_fourteen_bit_cores() {
    for core_type in [3u8, 5, 6, 7, 8, 9, 10] {
        assert_eq!(with_core_type(core_type).core_bits(), 14);
    }
}

#[test]
fn core_bits_of_every_other_code_is_zero() {
    assert_eq!(with_core_type(0).core_bits(), 0);
    for core_type in 11..=u8::MAX {
        assert_eq!(with_core_type(core_type).core_bits(), 0);
    }
}

#[test]
fn core_bits_is_a_known_width_or_zero() {
    for core_type in 0..=u8::MAX {
        let bits = with_core_type(core_type).core_bits();
        assert!(bits == 0 || bits == 12 || bits == 14 || bits == 16);
    }
}

#[test]
fn single_panel_access_mode_is_core_type_one() {
    for core_type in 0..=u8::MAX {
        assert_eq!(
            with_core_type(core_type).flag_18f_single_panel_access_mode(),
            core_type == 1
        );
    }
}

#[test]
fn fast_sequences_have_no_vpp_delay() {
    assert!(with_power_sequence("vccfastvpp1").flag_vcc_vpp_delay());
    assert!(with_power_sequence("vccfastvpp2").flag_vcc_vpp_delay());
}

#[test]
fn fast_sequences_in_any_case() {
    assert!(with_power_sequence("VccFastVpp1").flag_vcc_vpp_delay());
    assert!(with_power_sequence("VCCFASTVPP2").flag_vcc_vpp_delay());
    assert!(with_power_sequence("vCCfASTvPP1").flag_vcc_vpp_delay());
}

#[test]
fn other_sequences_have_the_delay() {
    for name in ["vcc", "vccvpp1", "vccvpp2", "vpp1vcc", "vpp2vcc", "Vcc", "VccVpp1", "Vpp2Vcc"] {
        assert!(!with_power_sequence(name).flag_vcc_vpp_delay());
    }
}

#[test]
fn unknown_sequences_have_the_delay() {
    for name in ["", "vccfastvpp", "vccfastvpp3", "vccfastvpp1 ", " vccfastvpp1", "fast", "vccfastvpp12"] {
        assert!(!with_power_sequence(name).flag_vcc_vpp_delay());
    }
}

#[test]
fn is_fast_sequence_takes_lower_case_only() {
    assert!(is_fast_sequence("vccfastvpp1"));
    assert!(is_fast_sequence("vccfastvpp2"));
    assert!(!is_fast_sequence("VccFastVpp1"));
    assert!(!is_fast_sequence("vccvpp1"));
    assert!(!is_fast_sequence(""));
}
