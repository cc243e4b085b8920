//! The parameters of one target chip: memory sizes, programming timing,
//! power sequence and fuse table.
//!
//! A `ChipInfo` is plain data. The protocol engine reads it and never changes
//! it; the only logic here is the few values derived from its fields.

use vstd::prelude::*;
use vstd::string::*;

verus! {

/// One selectable setting of a fuse: its name and the word it leaves in the
/// configuration memory.
#[derive(Clone, Debug)]
pub struct FuseOption {
    pub name: &'static str,
    pub value: u16,
}

/// A fuse of the chip: its name, its settings in catalogue order, and the
/// index of the setting currently chosen.
#[derive(Clone, Debug)]
pub struct Fuse {
    pub name: &'static str,
    pub options: Vec<FuseOption>,
    pub current_option: u16,
}

/// A fuse setting as a mathematical value.
pub struct FuseOptionView {
    pub name: Seq<char>,
    pub value: u16,
}

/// A fuse as a mathematical value.
pub struct FuseView {
    pub name: Seq<char>,
    pub options: Seq<FuseOptionView>,
    pub current_option: u16,
}

impl View for FuseOption {
    type V = FuseOptionView;

    open spec fn view(&self) -> FuseOptionView {
        FuseOptionView { name: self.name@, value: self.value }
    }
}

impl View for Fuse {
    type V = FuseView;

    open spec fn view(&self) -> FuseView {
        FuseView {
            name: self.name@,
            options: self.options@.map_values(|o: FuseOption| o@),
            current_option: self.current_option,
        }
    }
}

impl FuseOption {
    /// A setting called `name` that writes `value`.
    pub fn new(name: &'static str, value: u16) -> (option: FuseOption)
        ensures
            option@ == (FuseOptionView { name: name@, value }),
    {
        FuseOption { name, value }
    }
}

/// A fuse with the two settings "Enabled" and "Disabled", the first chosen.
pub open spec fn switch_fuse(name: Seq<char>, enabled: u16, disabled: u16) -> FuseView {
    FuseView {
        name,
        options: seq![
            FuseOptionView { name: "Enabled"@, value: enabled },
            FuseOptionView { name: "Disabled"@, value: disabled },
        ],
        current_option: 0,
    }
}

/// A fuse with four settings, the first chosen.
pub open spec fn dial_fuse(
    name: Seq<char>,
    first: FuseOptionView,
    second: FuseOptionView,
    third: FuseOptionView,
    fourth: FuseOptionView,
) -> FuseView {
    FuseView { name, options: seq![first, second, third, fourth], current_option: 0 }
}

impl Fuse {
    /// A fuse that is either enabled or disabled.
    pub fn switch(name: &'static str, enabled: u16, disabled: u16) -> (fuse: Fuse)
        ensures
            fuse@ == switch_fuse(name@, enabled, disabled),
    {
        let mut options: Vec<FuseOption> = Vec::new();
        options.push(FuseOption::new("Enabled", enabled));
        options.push(FuseOption::new("Disabled", disabled));
        let fuse = Fuse { name, options, current_option: 0 };
        assert(fuse@.options =~= switch_fuse(name@, enabled, disabled).options);
        fuse
    }

    /// A fuse with four settings.
    pub fn dial(
        name: &'static str,
        first: FuseOption,
        second: FuseOption,
        third: FuseOption,
        fourth: FuseOption,
    ) -> (fuse: Fuse)
        ensures
            fuse@ == dial_fuse(name@, first@, second@, third@, fourth@),
    {
        let ghost expected = dial_fuse(name@, first@, second@, third@, fourth@);
        let mut options: Vec<FuseOption> = Vec::new();
        options.push(first);
        options.push(second);
        options.push(third);
        options.push(fourth);
        let fuse = Fuse { name, options, current_option: 0 };
        assert(fuse@.options =~= expected.options);
        fuse
    }
}

/// The fuse table of the PIC16F877A.
pub open spec fn pic16f877a_fuses() -> Seq<FuseView> {
    seq![
        switch_fuse("WDT"@, 0x3FFF, 0x3FFB),
        switch_fuse("PWRTE"@, 0x3FBF, 0x3FFF),
        switch_fuse("BODEN"@, 0x3FFF, 0x3FBF),
        switch_fuse("LVP"@, 0x3FFF, 0x3F7F),
        switch_fuse("CPD"@, 0x3EFF, 0x3FFF),
        dial_fuse(
            "WRT Enable"@,
            FuseOptionView { name: "Enabled"@, value: 0x3FFF },
            FuseOptionView { name: "WRT_256"@, value: 0x3DFF },
            FuseOptionView { name: "WRT_1FOURTH"@, value: 0x3BFF },
            FuseOptionView { name: "WRT_HALF"@, value: 0x39FF },
        ),
        switch_fuse("DEBUG"@, 0x37FF, 0x3FFF),
        dial_fuse(
            "Oscillator"@,
            FuseOptionView { name: "RC"@, value: 0x3FFF },
            FuseOptionView { name: "HS"@, value: 0x3FFE },
            FuseOptionView { name: "XT"@, value: 0x3FFD },
            FuseOptionView { name: "LP"@, value: 0x3FFC },
        ),
        switch_fuse("Code Protect"@, 0x1FFF, 0x3FFF),
    ]
}

/// The instruction-word width, in bits, that a core type code selects; zero
/// for a code that selects none.
pub open spec fn core_bits_of(core_type: u8) -> u32 {
    if core_type == 1 || core_type == 2 || core_type == 4 {
        16
    } else if core_type == 3 || (5 <= core_type && core_type <= 10) {
        14
    } else {
        0
    }
}

/// Whether a lower-case power sequence name is one of the two sequences that
/// raise the programming voltage without the usual delay.
pub open spec fn fast_sequence_name(lowered: Seq<char>) -> bool {
    lowered == "vccfastvpp1"@ || lowered == "vccfastvpp2"@
}

/// The lower-case form of a string of characters, as `str::to_lowercase`
/// computes it.
pub uninterp spec fn lowercased(s: Seq<char>) -> Seq<char>;

/// Calls `str::to_lowercase`. The contract only names the result: it is the
/// lower-case form of `s`, which is a function of the characters of `s`.
#[verifier::external_body]
fn to_lowercase(s: &str) -> (lowered: String)
    ensures
        lowered@ == lowercased(s@),
{
    s.to_lowercase()
}

/// Decides whether `lowered`, a power sequence name already in lower case,
/// names a fast sequence.
pub fn is_fast_sequence(lowered: &str) -> (fast: bool)
    ensures
        fast == fast_sequence_name(lowered@),
{
    let name = String::from_str(lowered);
    name == String::from_str("vccfastvpp1") || name == String::from_str("vccfastvpp2")
}

/// The parameters of one chip.
#[derive(Clone, Debug)]
pub struct ChipInfo {
    pub name: &'static str,
    pub included: bool,
    pub socket_image: &'static str,
    pub erase_mode: u8,
    pub flash_chip: bool,
    pub power_sequence: u8,
    pub power_sequence_str: &'static str,
    pub program_delay: u8,
    pub program_tries: u8,
    pub over_program: u8,
    pub core_type: u8,
    pub rom_size: u16,
    pub eeprom_size: u8,
    pub fuse_blank: u32,
    pub cpwarn: bool,
    pub flag_calibration_value_in_rom: bool,
    pub flag_band_gap_fuse: bool,
    pub icsp_only: bool,
    pub chip_id: u32,
    pub fuses: Vec<Fuse>,
}

impl ChipInfo {
    /// The fuse table as a sequence of mathematical values.
    pub open spec fn fuse_table(&self) -> Seq<FuseView> {
        self.fuses@.map_values(|f: Fuse| f@)
    }

    /// Whether this record holds the catalogue entry of the PIC16F877A.
    pub open spec fn is_pic16f877a(&self) -> bool {
        &&& self.name@ == "16F877A"@
        &&& self.included
        &&& self.socket_image@ == "socket pin 1"@
        &&& self.erase_mode == 5
        &&& self.flash_chip
        &&& self.power_sequence == 1
        &&& self.power_sequence_str@ == "VccVpp1"@
        &&& self.program_delay == 10
        &&& self.program_tries == 1
        &&& self.over_program == 1
        &&& self.core_type == 9
        &&& self.rom_size == 2000
        &&& self.eeprom_size == 100
        &&& self.fuse_blank == 0x3FFF
        &&& !self.cpwarn
        &&& !self.flag_calibration_value_in_rom
        &&& !self.flag_band_gap_fuse
        &&& !self.icsp_only
        &&& self.chip_id == 0x0E20
        &&& self.fuse_table() == pic16f877a_fuses()
    }

    /// The catalogue entry of the PIC16F877A.
    pub fn new() -> (chip: ChipInfo)
        ensures
            chip.is_pic16f877a(),
    {
        let mut fuses: Vec<Fuse> = Vec::new();
        fuses.push(Fuse::switch("WDT", 0x3FFF, 0x3FFB));
        fuses.push(Fuse::switch("PWRTE", 0x3FBF, 0x3FFF));
        fuses.push(Fuse::switch("BODEN", 0x3FFF, 0x3FBF));
        fuses.push(Fuse::switch("LVP", 0x3FFF, 0x3F7F));
        fuses.push(Fuse::switch("CPD", 0x3EFF, 0x3FFF));
        fuses.push(
            Fuse::dial(
                "WRT Enable",
                FuseOption::new("Enabled", 0x3FFF),
                FuseOption::new("WRT_256", 0x3DFF),
                FuseOption::new("WRT_1FOURTH", 0x3BFF),
                FuseOption::new("WRT_HALF", 0x39FF),
            ),
        );
        fuses.push(Fuse::switch("DEBUG", 0x37FF, 0x3FFF));
        fuses.push(
            Fuse::dial(
                "Oscillator",
                FuseOption::new("RC", 0x3FFF),
                FuseOption::new("HS", 0x3FFE),
                FuseOption::new("XT", 0x3FFD),
                FuseOption::new("LP", 0x3FFC),
            ),
        );
        fuses.push(Fuse::switch("Code Protect", 0x1FFF, 0x3FFF));
        let chip = ChipInfo {
            name: "16F877A",
            included: true,
            socket_image: "socket pin 1",
            erase_mode: 5,
            flash_chip: true,
            power_sequence: 1,
            power_sequence_str: "VccVpp1",
            program_delay: 10,
            program_tries: 1,
            over_program: 1,
            core_type: 9,
            rom_size: 2000,
            eeprom_size: 100,
            fuse_blank: 0x3FFF,
            cpwarn: false,
            flag_calibration_value_in_rom: false,
            flag_band_gap_fuse: false,
            icsp_only: false,
            chip_id: 0x0E20,
            fuses,
        };
        assert(chip.fuse_table() =~= pic16f877a_fuses());
        chip
    }

    pub fn name(&self) -> (name: &str)
        ensures
            name@ == self.name@,
    {
        self.name
    }

    pub fn erase_mode(&self) -> (erase_mode: u8)
        ensures
            erase_mode == self.erase_mode,
    {
        self.erase_mode
    }

    pub fn flash_chip(&self) -> (flash_chip: bool)
        ensures
            flash_chip == self.flash_chip,
    {
        self.flash_chip
    }

    pub fn power_sequence(&self) -> (code: u8)
        ensures
            code == self.power_sequence,
    {
        self.power_sequence
    }

    pub fn power_sequence_str(&self) -> (name: &str)
        ensures
            name@ == self.power_sequence_str@,
    {
        self.power_sequence_str
    }

    pub fn program_delay(&self) -> (delay: u8)
        ensures
            delay == self.program_delay,
    {
        self.program_delay
    }

    pub fn program_tries(&self) -> (tries: u8)
        ensures
            tries == self.program_tries,
    {
        self.program_tries
    }

    pub fn over_program(&self) -> (over_program: u8)
        ensures
            over_program == self.over_program,
    {
        self.over_program
    }

    pub fn core_type(&self) -> (core_type: u8)
        ensures
            core_type == self.core_type,
    {
        self.core_type
    }

    /// The instruction-word width of the chip in bits: 14 or 16 for the core
    /// types this table knows, zero for any other code.
    pub fn core_bits(&self) -> (bits: u32)
        ensures
            bits == core_bits_of(self.core_type),
            bits == 0 || bits == 12 || bits == 14 || bits == 16,
            bits != 0 <==> 1 <= self.core_type <= 10,
    {
        match self.core_type {
            1 | 2 => 16,
            3 | 5 | 6 | 7 | 8 | 9 | 10 => 14,
            4 => 16,
            _ => 0,
        }
    }

    /// The size of the program memory in words.
    pub fn rom_size(&self) -> (words: u16)
        ensures
            words == self.rom_size,
    {
        self.rom_size
    }

    /// The size of the data EEPROM in bytes.
    pub fn eeprom_size(&self) -> (bytes: u8)
        ensures
            bytes == self.eeprom_size,
    {
        self.eeprom_size
    }

    pub fn fuse_blank(&self) -> (word: u32)
        ensures
            word == self.fuse_blank,
    {
        self.fuse_blank
    }

    pub fn cpwarn(&self) -> (cpwarn: bool)
        ensures
            cpwarn == self.cpwarn,
    {
        self.cpwarn
    }

    pub fn flag_calibration_value_in_rom(&self) -> (flag: bool)
        ensures
            flag == self.flag_calibration_value_in_rom,
    {
        self.flag_calibration_value_in_rom
    }

    pub fn flag_band_gap_fuse(&self) -> (flag: bool)
        ensures
            flag == self.flag_band_gap_fuse,
    {
        self.flag_band_gap_fuse
    }

    pub fn icsp_only(&self) -> (icsp_only: bool)
        ensures
            icsp_only == self.icsp_only,
    {
        self.icsp_only
    }

    /// Whether the chip is programmed in single panel access mode, which is
    /// the case for the first of the sixteen-bit core types only.
    pub fn flag_18f_single_panel_access_mode(&self) -> (flag: bool)
        ensures
            flag == (self.core_type == 1),
    {
        self.core_type == 1
    }

    pub fn chip_id(&self) -> (chip_id: u32)
        ensures
            chip_id == self.chip_id,
    {
        self.chip_id
    }

    pub fn fuses(&self) -> (fuses: &Vec<Fuse>)
        ensures
            *fuses == self.fuses,
    {
        &self.fuses
    }

    /// Whether the power sequence raises the programming voltage without
    /// delay: true exactly when the name of the sequence, in lower case, is
    /// `vccfastvpp1` or `vccfastvpp2`.
    pub fn flag_vcc_vpp_delay(&self) -> (fast: bool)
        ensures
            fast == fast_sequence_name(lowercased(self.power_sequence_str@)),
    {
        let lowered = to_lowercase(self.power_sequence_str);
        is_fast_sequence(lowered.as_str())
    }
}

} // verus!
