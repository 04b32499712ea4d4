//! The packed bytes of the NES header, each as a small value type with named
//! accessors over its bit fields.

use crate::bits::{extract, lemma_read_stored, lemma_store_keeps_others, replace, with_field};
use vstd::arithmetic::power2::lemma2_to64;
use vstd::prelude::*;

verus! {

/// The CPU and PPU timing an image asks for, two bits of byte 12.
#[derive(Debug, Clone, Copy, PartialEq, Eq)]
pub enum TimingMode {
    NTSC,
    PAL,
    MultipleRegions,
    Dendy,
}

impl TimingMode {
    /// The two-bit code of the mode.
    pub open spec fn spec_into_bits(self) -> u8 {
        match self {
            TimingMode::NTSC => 0,
            TimingMode::PAL => 1,
            TimingMode::MultipleRegions => 2,
            TimingMode::Dendy => 3,
        }
    }

    /// The mode that the low two bits of `value` name.
    pub open spec fn spec_from_bits(value: u8) -> Self {
        if value % 4 == 0 {
            TimingMode::NTSC
        } else if value % 4 == 1 {
            TimingMode::PAL
        } else if value % 4 == 2 {
            TimingMode::MultipleRegions
        } else {
            TimingMode::Dendy
        }
    }

    /// The two-bit code of the mode.
    #[verifier::when_used_as_spec(spec_into_bits)]
    pub fn into_bits(self) -> (bits: u8)
        ensures
            bits == self.spec_into_bits(),
            bits < 4,
    {
        match self {
            TimingMode::NTSC => 0,
            TimingMode::PAL => 1,
            TimingMode::MultipleRegions => 2,
            TimingMode::Dendy => 3,
        }
    }

    /// The mode that the low two bits of `value` name; the upper bits are ignored.
    #[verifier::when_used_as_spec(spec_from_bits)]
    pub fn from_bits(value: u8) -> (mode: Self)
        ensures
            mode == Self::spec_from_bits(value),
            mode.into_bits() == value % 4,
    {
        proof {
            lemma2_to64();
        }
        let code = extract(value, 0, 2);
        if code == 0 {
            TimingMode::NTSC
        } else if code == 1 {
            TimingMode::PAL
        } else if code == 2 {
            TimingMode::MultipleRegions
        } else {
            TimingMode::Dendy
        }
    }

    /// Every mode is read back from its own code.
    pub proof fn lemma_code_names_mode(self)
        ensures
            Self::spec_from_bits(self.spec_into_bits()) == self,
    {
    }
}

/// The console an image is for, two bits of byte 7. The first three values
/// keep the meaning that the older format gave to the two bits separately.
#[derive(Debug, Clone, Copy, PartialEq, Eq)]
pub enum ConsoleType {
    NES,
    VsSystem,
    PlayChoice10,
    ExtendedConsole,
}

impl ConsoleType {
    /// The two-bit code of the console.
    pub open spec fn spec_into_bits(self) -> u8 {
        match self {
            ConsoleType::NES => 0,
            ConsoleType::VsSystem => 1,
            ConsoleType::PlayChoice10 => 2,
            ConsoleType::ExtendedConsole => 3,
        }
    }

    /// The console that the low two bits of `value` name.
    pub open spec fn spec_from_bits(value: u8) -> Self {
        if value % 4 == 0 {
            ConsoleType::NES
        } else if value % 4 == 1 {
            ConsoleType::VsSystem
        } else if value % 4 == 2 {
            ConsoleType::PlayChoice10
        } else {
            ConsoleType::ExtendedConsole
        }
    }

    /// The two-bit code of the console.
    #[verifier::when_used_as_spec(spec_into_bits)]
    pub fn into_bits(self) -> (bits: u8)
        ensures
            bits == self.spec_into_bits(),
            bits < 4,
    {
        match self {
            ConsoleType::NES => 0,
            ConsoleType::VsSystem => 1,
            ConsoleType::PlayChoice10 => 2,
            ConsoleType::ExtendedConsole => 3,
        }
    }

    /// The console that the low two bits of `value` name; the upper bits are ignored.
    #[verifier::when_used_as_spec(spec_from_bits)]
    pub fn from_bits(value: u8) -> (console: Self)
        ensures
            console == Self::spec_from_bits(value),
            console.into_bits() == value % 4,
    {
        proof {
            lemma2_to64();
        }
        let code = extract(value, 0, 2);
        if code == 0 {
            ConsoleType::NES
        } else if code == 1 {
            ConsoleType::VsSystem
        } else if code == 2 {
            ConsoleType::PlayChoice10
        } else {
            ConsoleType::ExtendedConsole
        }
    }

    /// Every console is read back from its own code.
    pub proof fn lemma_code_names_console(self)
        ensures
            Self::spec_from_bits(self.spec_into_bits()) == self,
    {
    }
}

/// Byte 13 of a Vs. System image: the PPU and the hardware it runs on.
#[derive(Debug, Clone, Copy, PartialEq, Eq)]
pub struct VsSystemType(pub u8);

impl VsSystemType {
    /// The byte with every field zero.
    pub fn new() -> (flags: Self)
        ensures
            flags.0 == 0,
    {
        VsSystemType(0)
    }

    /// Wraps a raw byte.
    pub fn from_bits(bits: u8) -> (flags: Self)
        ensures
            flags.0 == bits,
    {
        VsSystemType(bits)
    }

    /// The raw byte.
    pub fn into_bits(self) -> (bits: u8)
        ensures
            bits == self.0,
    {
        self.0
    }

    /// Bits 0 to 3: the Vs. PPU type.
    pub open spec fn spec_ppu_type(&self) -> u8 {
        self.0 % 16
    }

    /// Bits 0 to 3: the Vs. PPU type.
    #[verifier::when_used_as_spec(spec_ppu_type)]
    pub fn ppu_type(&self) -> (value: u8)
        ensures
            value == self.spec_ppu_type(),
    {
        proof {
            lemma2_to64();
        }
        extract(self.0, 0, 4)
    }

    /// A copy with `value` in bits 0 to 3 and leaves the other fields as they are.
    pub fn with_ppu_type(self, value: u8) -> (out: Self)
        requires
            value < 16,
        ensures
            out.0 == with_field(self.0, value, 0, 4),
            out.ppu_type() == value,
            out.hardware_type() == self.hardware_type(),
    {
        let mut out = self;
        out.set_ppu_type(value);
        out
    }

    /// Stores `value` in bits 0 to 3 and leaves the other fields as they are.
    pub fn set_ppu_type(&mut self, value: u8)
        requires
            value < 16,
        ensures
            final(self).0 == with_field(old(self).0, value, 0, 4),
            final(self).ppu_type() == value,
            final(self).hardware_type() == old(self).hardware_type(),
    {
        proof {
            lemma2_to64();
            lemma_read_stored(self.0, value, 0, 4);
            lemma_store_keeps_others(self.0, value, 0, 4, 4, 4);
        }
        self.0 = replace(self.0, value, 0, 4);
    }

    /// Bits 4 to 7: the Vs. hardware type.
    pub open spec fn spec_hardware_type(&self) -> u8 {
        self.0 / 16
    }

    /// Bits 4 to 7: the Vs. hardware type.
    #[verifier::when_used_as_spec(spec_hardware_type)]
    pub fn hardware_type(&self) -> (value: u8)
        ensures
            value == self.spec_hardware_type(),
    {
        proof {
            lemma2_to64();
        }
        extract(self.0, 4, 4)
    }

    /// A copy with `value` in bits 4 to 7 and leaves the other fields as they are.
    pub fn with_hardware_type(self, value: u8) -> (out: Self)
        requires
            value < 16,
        ensures
            out.0 == with_field(self.0, value, 4, 4),
            out.hardware_type() == value,
            out.ppu_type() == self.ppu_type(),
    {
        let mut out = self;
        out.set_hardware_type(value);
        out
    }

    /// Stores `value` in bits 4 to 7 and leaves the other fields as they are.
    pub fn set_hardware_type(&mut self, value: u8)
        requires
            value < 16,
        ensures
            final(self).0 == with_field(old(self).0, value, 4, 4),
            final(self).hardware_type() == value,
            final(self).ppu_type() == old(self).ppu_type(),
    {
        proof {
            lemma2_to64();
            lemma_read_stored(self.0, value, 4, 4);
            lemma_store_keeps_others(self.0, value, 4, 4, 0, 4);
        }
        self.0 = replace(self.0, value, 4, 4);
    }
}

impl Default for VsSystemType {
    fn default() -> (flags: Self)
        ensures
            flags.0 == 0,
    {
        VsSystemType(0)
    }
}

/// Byte 13 of an extended-console image. The high nibble is reserved.
#[derive(Debug, Clone, Copy, PartialEq, Eq)]
pub struct ExtendedConsoleType(pub u8);

impl ExtendedConsoleType {
    /// The byte with every field zero.
    pub fn new() -> (flags: Self)
        ensures
            flags.0 == 0,
    {
        ExtendedConsoleType(0)
    }

    /// Wraps a raw byte.
    pub fn from_bits(bits: u8) -> (flags: Self)
        ensures
            flags.0 == bits,
    {
        ExtendedConsoleType(bits)
    }

    /// The raw byte.
    pub fn into_bits(self) -> (bits: u8)
        ensures
            bits == self.0,
    {
        self.0
    }

    /// Bits 0 to 3: the extended console type.
    pub open spec fn spec_extended_console_type(&self) -> u8 {
        self.0 % 16
    }

    /// Bits 0 to 3: the extended console type.
    #[verifier::when_used_as_spec(spec_extended_console_type)]
    pub fn extended_console_type(&self) -> (value: u8)
        ensures
            value == self.spec_extended_console_type(),
    {
        proof {
            lemma2_to64();
        }
        extract(self.0, 0, 4)
    }

    /// A copy with `value` in bits 0 to 3.
    pub fn with_extended_console_type(self, value: u8) -> (out: Self)
        requires
            value < 16,
        ensures
            out.0 == with_field(self.0, value, 0, 4),
            out.extended_console_type() == value,
    {
        let mut out = self;
        out.set_extended_console_type(value);
        out
    }

    /// Stores `value` in bits 0 to 3.
    pub fn set_extended_console_type(&mut self, value: u8)
        requires
            value < 16,
        ensures
            final(self).0 == with_field(old(self).0, value, 0, 4),
            final(self).extended_console_type() == value,
    {
        proof {
            lemma2_to64();
            lemma_read_stored(self.0, value, 0, 4);
        }
        self.0 = replace(self.0, value, 0, 4);
    }
}

impl Default for ExtendedConsoleType {
    fn default() -> (flags: Self)
        ensures
            flags.0 == 0,
    {
        ExtendedConsoleType(0)
    }
}

/// Byte 6: mirroring, battery, trainer, alternative nametables, and the low
/// nibble of the mapper number.
#[derive(Debug, Clone, Copy, PartialEq, Eq)]
pub struct Flags6(pub u8);

impl Flags6 {
    /// The byte with every field zero.
    pub fn new() -> (flags: Self)
        ensures
            flags.0 == 0,
    {
        Flags6(0)
    }

    /// Wraps a raw byte.
    pub fn from_bits(bits: u8) -> (flags: Self)
        ensures
            flags.0 == bits,
    {
        Flags6(bits)
    }

    /// The raw byte.
    pub fn into_bits(self) -> (bits: u8)
        ensures
            bits == self.0,
    {
        self.0
    }

    /// Bit 0: nametable arrangement.
    pub open spec fn spec_nametable(&self) -> bool {
        self.0 % 2 == 1
    }

    /// Bit 0: nametable arrangement.
    #[verifier::when_used_as_spec(spec_nametable)]
    pub fn nametable(&self) -> (set: bool)
        ensures
            set == self.spec_nametable(),
    {
        proof {
            lemma2_to64();
        }
        extract(self.0, 0, 1) != 0
    }

    /// A copy with `value` in bit 0 and leaves the other fields as they are.
    pub fn with_nametable(self, value: bool) -> (out: Self)
        ensures
            out.0 == with_field(self.0, if value { 1u8 } else { 0u8 }, 0, 1),
            out.nametable() == value,
            out.battery_backed() == self.battery_backed(),
            out.trainer() == self.trainer(),
            out.alternative_nametable() == self.alternative_nametable(),
            out.mapper_low() == self.mapper_low(),
    {
        let mut out = self;
        out.set_nametable(value);
        out
    }

    /// Stores `value` in bit 0 and leaves the other fields as they are.
    pub fn set_nametable(&mut self, value: bool)
        ensures
            final(self).0 == with_field(old(self).0, if value { 1u8 } else { 0u8 }, 0, 1),
            final(self).nametable() == value,
            final(self).battery_backed() == old(self).battery_backed(),
            final(self).trainer() == old(self).trainer(),
            final(self).alternative_nametable() == old(self).alternative_nametable(),
            final(self).mapper_low() == old(self).mapper_low(),
    {
        proof {
            lemma2_to64();
            lemma_read_stored(self.0, if value { 1u8 } else { 0u8 }, 0, 1);
            lemma_store_keeps_others(self.0, if value { 1u8 } else { 0u8 }, 0, 1, 1, 1);
            lemma_store_keeps_others(self.0, if value { 1u8 } else { 0u8 }, 0, 1, 2, 1);
            lemma_store_keeps_others(self.0, if value { 1u8 } else { 0u8 }, 0, 1, 3, 1);
            lemma_store_keeps_others(self.0, if value { 1u8 } else { 0u8 }, 0, 1, 4, 4);
        }
        self.0 = replace(self.0, if value { 1 } else { 0 }, 0, 1);
    }

    /// Bit 1: battery-backed memory is present.
    pub open spec fn spec_battery_backed(&self) -> bool {
        (self.0 / 2) % 2 == 1
    }

    /// Bit 1: battery-backed memory is present.
    #[verifier::when_used_as_spec(spec_battery_backed)]
    pub fn battery_backed(&self) -> (set: bool)
        ensures
            set == self.spec_battery_backed(),
    {
        proof {
            lemma2_to64();
        }
        extract(self.0, 1, 1) != 0
    }

    /// A copy with `value` in bit 1 and leaves the other fields as they are.
    pub fn with_battery_backed(self, value: bool) -> (out: Self)
        ensures
            out.0 == with_field(self.0, if value { 1u8 } else { 0u8 }, 1, 1),
            out.battery_backed() == value,
            out.nametable() == self.nametable(),
            out.trainer() == self.trainer(),
            out.alternative_nametable() == self.alternative_nametable(),
            out.mapper_low() == self.mapper_low(),
    {
        let mut out = self;
        out.set_battery_backed(value);
        out
    }

    /// Stores `value` in bit 1 and leaves the other fields as they are.
    pub fn set_battery_backed(&mut self, value: bool)
        ensures
            final(self).0 == with_field(old(self).0, if value { 1u8 } else { 0u8 }, 1, 1),
            final(self).battery_backed() == value,
            final(self).nametable() == old(self).nametable(),
            final(self).trainer() == old(self).trainer(),
            final(self).alternative_nametable() == old(self).alternative_nametable(),
            final(self).mapper_low() == old(self).mapper_low(),
    {
        proof {
            lemma2_to64();
            lemma_read_stored(self.0, if value { 1u8 } else { 0u8 }, 1, 1);
            lemma_store_keeps_others(self.0, if value { 1u8 } else { 0u8 }, 1, 1, 0, 1);
            lemma_store_keeps_others(self.0, if value { 1u8 } else { 0u8 }, 1, 1, 2, 1);
            lemma_store_keeps_others(self.0, if value { 1u8 } else { 0u8 }, 1, 1, 3, 1);
            lemma_store_keeps_others(self.0, if value { 1u8 } else { 0u8 }, 1, 1, 4, 4);
        }
        self.0 = replace(self.0, if value { 1 } else { 0 }, 1, 1);
    }

    /// Bit 2: a 512-byte trainer precedes the program data.
    pub open spec fn spec_trainer(&self) -> bool {
        (self.0 / 4) % 2 == 1
    }

    /// Bit 2: a 512-byte trainer precedes the program data.
    #[verifier::when_used_as_spec(spec_trainer)]
    pub fn trainer(&self) -> (set: bool)
        ensures
            set == self.spec_trainer(),
    {
        proof {
            lemma2_to64();
        }
        extract(self.0, 2, 1) != 0
    }

    /// A copy with `value` in bit 2 and leaves the other fields as they are.
    pub fn with_trainer(self, value: bool) -> (out: Self)
        ensures
            out.0 == with_field(self.0, if value { 1u8 } else { 0u8 }, 2, 1),
            out.trainer() == value,
            out.nametable() == self.nametable(),
            out.battery_backed() == self.battery_backed(),
            out.alternative_nametable() == self.alternative_nametable(),
            out.mapper_low() == self.mapper_low(),
    {
        let mut out = self;
        out.set_trainer(value);
        out
    }

    /// Stores `value` in bit 2 and leaves the other fields as they are.
    pub fn set_trainer(&mut self, value: bool)
        ensures
            final(self).0 == with_field(old(self).0, if value { 1u8 } else { 0u8 }, 2, 1),
            final(self).trainer() == value,
            final(self).nametable() == old(self).nametable(),
            final(self).battery_backed() == old(self).battery_backed(),
            final(self).alternative_nametable() == old(self).alternative_nametable(),
            final(self).mapper_low() == old(self).mapper_low(),
    {
        proof {
            lemma2_to64();
            lemma_read_stored(self.0, if value { 1u8 } else { 0u8 }, 2, 1);
            lemma_store_keeps_others(self.0, if value { 1u8 } else { 0u8 }, 2, 1, 0, 1);
            lemma_store_keeps_others(self.0, if value { 1u8 } else { 0u8 }, 2, 1, 1, 1);
            lemma_store_keeps_others(self.0, if value { 1u8 } else { 0u8 }, 2, 1, 3, 1);
            lemma_store_keeps_others(self.0, if value { 1u8 } else { 0u8 }, 2, 1, 4, 4);
        }
        self.0 = replace(self.0, if value { 1 } else { 0 }, 2, 1);
    }

    /// Bit 3: alternative nametable layout.
    pub open spec fn spec_alternative_nametable(&self) -> bool {
        (self.0 / 8) % 2 == 1
    }

    /// Bit 3: alternative nametable layout.
    #[verifier::when_used_as_spec(spec_alternative_nametable)]
    pub fn alternative_nametable(&self) -> (set: bool)
        ensures
            set == self.spec_alternative_nametable(),
    {
        proof {
            lemma2_to64();
        }
        extract(self.0, 3, 1) != 0
    }

    /// A copy with `value` in bit 3 and leaves the other fields as they are.
    pub fn with_alternative_nametable(self, value: bool) -> (out: Self)
        ensures
            out.0 == with_field(self.0, if value { 1u8 } else { 0u8 }, 3, 1),
            out.alternative_nametable() == value,
            out.nametable() == self.nametable(),
            out.battery_backed() == self.battery_backed(),
            out.trainer() == self.trainer(),
            out.mapper_low() == self.mapper_low(),
    {
        let mut out = self;
        out.set_alternative_nametable(value);
        out
    }

    /// Stores `value` in bit 3 and leaves the other fields as they are.
    pub fn set_alternative_nametable(&mut self, value: bool)
        ensures
            final(self).0 == with_field(old(self).0, if value { 1u8 } else { 0u8 }, 3, 1),
            final(self).alternative_nametable() == value,
            final(self).nametable() == old(self).nametable(),
            final(self).battery_backed() == old(self).battery_backed(),
            final(self).trainer() == old(self).trainer(),
            final(self).mapper_low() == old(self).mapper_low(),
    {
        proof {
            lemma2_to64();
            lemma_read_stored(self.0, if value { 1u8 } else { 0u8 }, 3, 1);
            lemma_store_keeps_others(self.0, if value { 1u8 } else { 0u8 }, 3, 1, 0, 1);
            lemma_store_keeps_others(self.0, if value { 1u8 } else { 0u8 }, 3, 1, 1, 1);
            lemma_store_keeps_others(self.0, if value { 1u8 } else { 0u8 }, 3, 1, 2, 1);
            lemma_store_keeps_others(self.0, if value { 1u8 } else { 0u8 }, 3, 1, 4, 4);
        }
        self.0 = replace(self.0, if value { 1 } else { 0 }, 3, 1);
    }

    /// Bits 4 to 7: the low nibble of the mapper number.
    pub open spec fn spec_mapper_low(&self) -> u8 {
        self.0 / 16
    }

    /// Bits 4 to 7: the low nibble of the mapper number.
    #[verifier::when_used_as_spec(spec_mapper_low)]
    pub fn mapper_low(&self) -> (value: u8)
        ensures
            value == self.spec_mapper_low(),
    {
        proof {
            lemma2_to64();
        }
        extract(self.0, 4, 4)
    }

    /// A copy with `value` in bits 4 to 7 and leaves the other fields as they are.
    pub fn with_mapper_low(self, value: u8) -> (out: Self)
        requires
            value < 16,
        ensures
            out.0 == with_field(self.0, value, 4, 4),
            out.mapper_low() == value,
            out.nametable() == self.nametable(),
            out.battery_backed() == self.battery_backed(),
            out.trainer() == self.trainer(),
            out.alternative_nametable() == self.alternative_nametable(),
    {
        let mut out = self;
        out.set_mapper_low(value);
        out
    }

    /// Stores `value` in bits 4 to 7 and leaves the other fields as they are.
    pub fn set_mapper_low(&mut self, value: u8)
        requires
            value < 16,
        ensures
            final(self).0 == with_field(old(self).0, value, 4, 4),
            final(self).mapper_low() == value,
            final(self).nametable() == old(self).nametable(),
            final(self).battery_backed() == old(self).battery_backed(),
            final(self).trainer() == old(self).trainer(),
            final(self).alternative_nametable() == old(self).alternative_nametable(),
    {
        proof {
            lemma2_to64();
            lemma_read_stored(self.0, value, 4, 4);
            lemma_store_keeps_others(self.0, value, 4, 4, 0, 1);
            lemma_store_keeps_others(self.0, value, 4, 4, 1, 1);
            lemma_store_keeps_others(self.0, value, 4, 4, 2, 1);
            lemma_store_keeps_others(self.0, value, 4, 4, 3, 1);
        }
        self.0 = replace(self.0, value, 4, 4);
    }
}

impl Default for Flags6 {
    fn default() -> (flags: Self)
        ensures
            flags.0 == 0,
    {
        Flags6(0)
    }
}

/// Byte 7: console type, format selector, and the second nibble of the mapper
/// number.
#[derive(Debug, Clone, Copy, PartialEq, Eq)]
pub struct Flags7(pub u8);

impl Flags7 {
    /// The byte with every field zero.
    pub fn new() -> (flags: Self)
        ensures
            flags.0 == 0,
    {
        Flags7(0)
    }

    /// Wraps a raw byte.
    pub fn from_bits(bits: u8) -> (flags: Self)
        ensures
            flags.0 == bits,
    {
        Flags7(bits)
    }

    /// The raw byte.
    pub fn into_bits(self) -> (bits: u8)
        ensures
            bits == self.0,
    {
        self.0
    }

    /// Bits 0 to 1: the console the image is for.
    pub open spec fn spec_console(&self) -> ConsoleType {
        ConsoleType::spec_from_bits(self.0 % 4)
    }

    /// Bits 0 to 1: the console the image is for.
    #[verifier::when_used_as_spec(spec_console)]
    pub fn console(&self) -> (value: ConsoleType)
        ensures
            value == self.spec_console(),
    {
        proof {
            lemma2_to64();
        }
        ConsoleType::from_bits(extract(self.0, 0, 2))
    }

    /// A copy with `value` in bits 0 to 1 and leaves the other fields as they are.
    pub fn with_console(self, value: ConsoleType) -> (out: Self)
        ensures
            out.0 == with_field(self.0, value.into_bits(), 0, 2),
            out.console() == value,
            out.format() == self.format(),
            out.mapper_high() == self.mapper_high(),
    {
        let mut out = self;
        out.set_console(value);
        out
    }

    /// Stores `value` in bits 0 to 1 and leaves the other fields as they are.
    pub fn set_console(&mut self, value: ConsoleType)
        ensures
            final(self).0 == with_field(old(self).0, value.into_bits(), 0, 2),
            final(self).console() == value,
            final(self).format() == old(self).format(),
            final(self).mapper_high() == old(self).mapper_high(),
    {
        proof {
            lemma2_to64();
            lemma_read_stored(self.0, value.into_bits(), 0, 2);
            lemma_store_keeps_others(self.0, value.into_bits(), 0, 2, 2, 2);
            lemma_store_keeps_others(self.0, value.into_bits(), 0, 2, 4, 4);
        }
        self.0 = replace(self.0, value.into_bits(), 0, 2);
    }

    /// Bits 2 to 3: the format selector, 2 for NES 2.0.
    pub open spec fn spec_format(&self) -> u8 {
        (self.0 / 4) % 4
    }

    /// Bits 2 to 3: the format selector, 2 for NES 2.0.
    #[verifier::when_used_as_spec(spec_format)]
    pub fn format(&self) -> (value: u8)
        ensures
            value == self.spec_format(),
    {
        proof {
            lemma2_to64();
        }
        extract(self.0, 2, 2)
    }

    /// A copy with `value` in bits 2 to 3 and leaves the other fields as they are.
    pub fn with_format(self, value: u8) -> (out: Self)
        requires
            value < 4,
        ensures
            out.0 == with_field(self.0, value, 2, 2),
            out.format() == value,
            out.console() == self.console(),
            out.mapper_high() == self.mapper_high(),
    {
        let mut out = self;
        out.set_format(value);
        out
    }

    /// Stores `value` in bits 2 to 3 and leaves the other fields as they are.
    pub fn set_format(&mut self, value: u8)
        requires
            value < 4,
        ensures
            final(self).0 == with_field(old(self).0, value, 2, 2),
            final(self).format() == value,
            final(self).console() == old(self).console(),
            final(self).mapper_high() == old(self).mapper_high(),
    {
        proof {
            lemma2_to64();
            lemma_read_stored(self.0, value, 2, 2);
            lemma_store_keeps_others(self.0, value, 2, 2, 0, 2);
            lemma_store_keeps_others(self.0, value, 2, 2, 4, 4);
        }
        self.0 = replace(self.0, value, 2, 2);
    }

    /// Bits 4 to 7: the second nibble of the mapper number.
    pub open spec fn spec_mapper_high(&self) -> u8 {
        self.0 / 16
    }

    /// Bits 4 to 7: the second nibble of the mapper number.
    #[verifier::when_used_as_spec(spec_mapper_high)]
    pub fn mapper_high(&self) -> (value: u8)
        ensures
            value == self.spec_mapper_high(),
    {
        proof {
            lemma2_to64();
        }
        extract(self.0, 4, 4)
    }

    /// A copy with `value` in bits 4 to 7 and leaves the other fields as they are.
    pub fn with_mapper_high(self, value: u8) -> (out: Self)
        requires
            value < 16,
        ensures
            out.0 == with_field(self.0, value, 4, 4),
            out.mapper_high() == value,
            out.console() == self.console(),
            out.format() == self.format(),
    {
        let mut out = self;
        out.set_mapper_high(value);
        out
    }

    /// Stores `value` in bits 4 to 7 and leaves the other fields as they are.
    pub fn set_mapper_high(&mut self, value: u8)
        requires
            value < 16,
        ensures
            final(self).0 == with_field(old(self).0, value, 4, 4),
            final(self).mapper_high() == value,
            final(self).console() == old(self).console(),
            final(self).format() == old(self).format(),
    {
        proof {
            lemma2_to64();
            lemma_read_stored(self.0, value, 4, 4);
            lemma_store_keeps_others(self.0, value, 4, 4, 0, 2);
            lemma_store_keeps_others(self.0, value, 4, 4, 2, 2);
        }
        self.0 = replace(self.0, value, 4, 4);
    }
}

impl Default for Flags7 {
    fn default() -> (flags: Self)
        ensures
            flags.0 == 0,
    {
        Flags7(0)
    }
}

/// Byte 9 in NES 2.0: the high nibbles of the two ROM chunk counts.
#[derive(Debug, Clone, Copy, PartialEq, Eq)]
pub struct Flags9Nes2(pub u8);

impl Flags9Nes2 {
    /// The byte with every field zero.
    pub fn new() -> (flags: Self)
        ensures
            flags.0 == 0,
    {
        Flags9Nes2(0)
    }

    /// Wraps a raw byte.
    pub fn from_bits(bits: u8) -> (flags: Self)
        ensures
            flags.0 == bits,
    {
        Flags9Nes2(bits)
    }

    /// The raw byte.
    pub fn into_bits(self) -> (bits: u8)
        ensures
            bits == self.0,
    {
        self.0
    }

    /// Bits 0 to 3: the high nibble of the PRG ROM chunk count.
    pub open spec fn spec_prg_rom_msb(&self) -> u8 {
        self.0 % 16
    }

    /// Bits 0 to 3: the high nibble of the PRG ROM chunk count.
    #[verifier::when_used_as_spec(spec_prg_rom_msb)]
    pub fn prg_rom_msb(&self) -> (value: u8)
        ensures
            value == self.spec_prg_rom_msb(),
    {
        proof {
            lemma2_to64();
        }
        extract(self.0, 0, 4)
    }

    /// A copy with `value` in bits 0 to 3 and leaves the other fields as they are.
    pub fn with_prg_rom_msb(self, value: u8) -> (out: Self)
        requires
            value < 16,
        ensures
            out.0 == with_field(self.0, value, 0, 4),
            out.prg_rom_msb() == value,
            out.chr_rom_msb() == self.chr_rom_msb(),
    {
        let mut out = self;
        out.set_prg_rom_msb(value);
        out
    }

    /// Stores `value` in bits 0 to 3 and leaves the other fields as they are.
    pub fn set_prg_rom_msb(&mut self, value: u8)
        requires
            value < 16,
        ensures
            final(self).0 == with_field(old(self).0, value, 0, 4),
            final(self).prg_rom_msb() == value,
            final(self).chr_rom_msb() == old(self).chr_rom_msb(),
    {
        proof {
            lemma2_to64();
            lemma_read_stored(self.0, value, 0, 4);
            lemma_store_keeps_others(self.0, value, 0, 4, 4, 4);
        }
        self.0 = replace(self.0, value, 0, 4);
    }

    /// Bits 4 to 7: the high nibble of the CHR ROM chunk count.
    pub open spec fn spec_chr_rom_msb(&self) -> u8 {
        self.0 / 16
    }

    /// Bits 4 to 7: the high nibble of the CHR ROM chunk count.
    #[verifier::when_used_as_spec(spec_chr_rom_msb)]
    pub fn chr_rom_msb(&self) -> (value: u8)
        ensures
            value == self.spec_chr_rom_msb(),
    {
        proof {
            lemma2_to64();
        }
        extract(self.0, 4, 4)
    }

    /// A copy with `value` in bits 4 to 7 and leaves the other fields as they are.
    pub fn with_chr_rom_msb(self, value: u8) -> (out: Self)
        requires
            value < 16,
        ensures
            out.0 == with_field(self.0, value, 4, 4),
            out.chr_rom_msb() == value,
            out.prg_rom_msb() == self.prg_rom_msb(),
    {
        let mut out = self;
        out.set_chr_rom_msb(value);
        out
    }

    /// Stores `value` in bits 4 to 7 and leaves the other fields as they are.
    pub fn set_chr_rom_msb(&mut self, value: u8)
        requires
            value < 16,
        ensures
            final(self).0 == with_field(old(self).0, value, 4, 4),
            final(self).chr_rom_msb() == value,
            final(self).prg_rom_msb() == old(self).prg_rom_msb(),
    {
        proof {
            lemma2_to64();
            lemma_read_stored(self.0, value, 4, 4);
            lemma_store_keeps_others(self.0, value, 4, 4, 0, 4);
        }
        self.0 = replace(self.0, value, 4, 4);
    }
}

impl Default for Flags9Nes2 {
    fn default() -> (flags: Self)
        ensures
            flags.0 == 0,
    {
        Flags9Nes2(0)
    }
}

/// Byte 8 in NES 2.0: the submapper and the top nibble of the mapper number.
#[derive(Debug, Clone, Copy, PartialEq, Eq)]
pub struct Flags8Nes2(pub u8);

impl Flags8Nes2 {
    /// The byte with every field zero.
    pub fn new() -> (flags: Self)
        ensures
            flags.0 == 0,
    {
        Flags8Nes2(0)
    }

    /// Wraps a raw byte.
    pub fn from_bits(bits: u8) -> (flags: Self)
        ensures
            flags.0 == bits,
    {
        Flags8Nes2(bits)
    }

    /// The raw byte.
    pub fn into_bits(self) -> (bits: u8)
        ensures
            bits == self.0,
    {
        self.0
    }

    /// Bits 0 to 3: the submapper number.
    pub open spec fn spec_submapper(&self) -> u8 {
        self.0 % 16
    }

    /// Bits 0 to 3: the submapper number.
    #[verifier::when_used_as_spec(spec_submapper)]
    pub fn submapper(&self) -> (value: u8)
        ensures
            value == self.spec_submapper(),
    {
        proof {
            lemma2_to64();
        }
        extract(self.0, 0, 4)
    }

    /// A copy with `value` in bits 0 to 3 and leaves the other fields as they are.
    pub fn with_submapper(self, value: u8) -> (out: Self)
        requires
            value < 16,
        ensures
            out.0 == with_field(self.0, value, 0, 4),
            out.submapper() == value,
            out.mapper_high2() == self.mapper_high2(),
    {
        let mut out = self;
        out.set_submapper(value);
        out
    }

    /// Stores `value` in bits 0 to 3 and leaves the other fields as they are.
    pub fn set_submapper(&mut self, value: u8)
        requires
            value < 16,
        ensures
            final(self).0 == with_field(old(self).0, value, 0, 4),
            final(self).submapper() == value,
            final(self).mapper_high2() == old(self).mapper_high2(),
    {
        proof {
            lemma2_to64();
            lemma_read_stored(self.0, value, 0, 4);
            lemma_store_keeps_others(self.0, value, 0, 4, 4, 4);
        }
        self.0 = replace(self.0, value, 0, 4);
    }

    /// Bits 4 to 7: bits 12 to 15 of the mapper number.
    pub open spec fn spec_mapper_high2(&self) -> u8 {
        self.0 / 16
    }

    /// Bits 4 to 7: bits 12 to 15 of the mapper number.
    #[verifier::when_used_as_spec(spec_mapper_high2)]
    pub fn mapper_high2(&self) -> (value: u8)
        ensures
            value == self.spec_mapper_high2(),
    {
        proof {
            lemma2_to64();
        }
        extract(self.0, 4, 4)
    }

    /// A copy with `value` in bits 4 to 7 and leaves the other fields as they are.
    pub fn with_mapper_high2(self, value: u8) -> (out: Self)
        requires
            value < 16,
        ensures
            out.0 == with_field(self.0, value, 4, 4),
            out.mapper_high2() == value,
            out.submapper() == self.submapper(),
    {
        let mut out = self;
        out.set_mapper_high2(value);
        out
    }

    /// Stores `value` in bits 4 to 7 and leaves the other fields as they are.
    pub fn set_mapper_high2(&mut self, value: u8)
        requires
            value < 16,
        ensures
            final(self).0 == with_field(old(self).0, value, 4, 4),
            final(self).mapper_high2() == value,
            final(self).submapper() == old(self).submapper(),
    {
        proof {
            lemma2_to64();
            lemma_read_stored(self.0, value, 4, 4);
            lemma_store_keeps_others(self.0, value, 4, 4, 0, 4);
        }
        self.0 = replace(self.0, value, 4, 4);
    }
}

impl Default for Flags8Nes2 {
    fn default() -> (flags: Self)
        ensures
            flags.0 == 0,
    {
        Flags8Nes2(0)
    }
}

/// Byte 10 in NES 2.0: shift counts for the PRG RAM and PRG NVRAM sizes.
#[derive(Debug, Clone, Copy, PartialEq, Eq)]
pub struct Flags10Nes2(pub u8);

impl Flags10Nes2 {
    /// The byte with every field zero.
    pub fn new() -> (flags: Self)
        ensures
            flags.0 == 0,
    {
        Flags10Nes2(0)
    }

    /// Wraps a raw byte.
    pub fn from_bits(bits: u8) -> (flags: Self)
        ensures
            flags.0 == bits,
    {
        Flags10Nes2(bits)
    }

    /// The raw byte.
    pub fn into_bits(self) -> (bits: u8)
        ensures
            bits == self.0,
    {
        self.0
    }

    /// Bits 0 to 3: the shift count of the PRG RAM size.
    pub open spec fn spec_prg_ram_shift(&self) -> u8 {
        self.0 % 16
    }

    /// Bits 0 to 3: the shift count of the PRG RAM size.
    #[verifier::when_used_as_spec(spec_prg_ram_shift)]
    pub fn prg_ram_shift(&self) -> (value: u8)
        ensures
            value == self.spec_prg_ram_shift(),
    {
        proof {
            lemma2_to64();
        }
        extract(self.0, 0, 4)
    }

    /// A copy with `value` in bits 0 to 3 and leaves the other fields as they are.
    pub fn with_prg_ram_shift(self, value: u8) -> (out: Self)
        requires
            value < 16,
        ensures
            out.0 == with_field(self.0, value, 0, 4),
            out.prg_ram_shift() == value,
            out.prg_nvram_shift() == self.prg_nvram_shift(),
    {
        let mut out = self;
        out.set_prg_ram_shift(value);
        out
    }

    /// Stores `value` in bits 0 to 3 and leaves the other fields as they are.
    pub fn set_prg_ram_shift(&mut self, value: u8)
        requires
            value < 16,
        ensures
            final(self).0 == with_field(old(self).0, value, 0, 4),
            final(self).prg_ram_shift() == value,
            final(self).prg_nvram_shift() == old(self).prg_nvram_shift(),
    {
        proof {
            lemma2_to64();
            lemma_read_stored(self.0, value, 0, 4);
            lemma_store_keeps_others(self.0, value, 0, 4, 4, 4);
        }
        self.0 = replace(self.0, value, 0, 4);
    }

    /// Bits 4 to 7: the shift count of the PRG NVRAM size.
    pub open spec fn spec_prg_nvram_shift(&self) -> u8 {
        self.0 / 16
    }

    /// Bits 4 to 7: the shift count of the PRG NVRAM size.
    #[verifier::when_used_as_spec(spec_prg_nvram_shift)]
    pub fn prg_nvram_shift(&self) -> (value: u8)
        ensures
            value == self.spec_prg_nvram_shift(),
    {
        proof {
            lemma2_to64();
        }
        extract(self.0, 4, 4)
    }

    /// A copy with `value` in bits 4 to 7 and leaves the other fields as they are.
    pub fn with_prg_nvram_shift(self, value: u8) -> (out: Self)
        requires
            value < 16,
        ensures
            out.0 == with_field(self.0, value, 4, 4),
            out.prg_nvram_shift() == value,
            out.prg_ram_shift() == self.prg_ram_shift(),
    {
        let mut out = self;
        out.set_prg_nvram_shift(value);
        out
    }

    /// Stores `value` in bits 4 to 7 and leaves the other fields as they are.
    pub fn set_prg_nvram_shift(&mut self, value: u8)
        requires
            value < 16,
        ensures
            final(self).0 == with_field(old(self).0, value, 4, 4),
            final(self).prg_nvram_shift() == value,
            final(self).prg_ram_shift() == old(self).prg_ram_shift(),
    {
        proof {
            lemma2_to64();
            lemma_read_stored(self.0, value, 4, 4);
            lemma_store_keeps_others(self.0, value, 4, 4, 0, 4);
        }
        self.0 = replace(self.0, value, 4, 4);
    }
}

impl Default for Flags10Nes2 {
    fn default() -> (flags: Self)
        ensures
            flags.0 == 0,
    {
        Flags10Nes2(0)
    }
}

/// Byte 11 in NES 2.0: shift counts for the CHR RAM and CHR NVRAM sizes.
#[derive(Debug, Clone, Copy, PartialEq, Eq)]
pub struct Flags11Nes2(pub u8);

impl Flags11Nes2 {
    /// The byte with every field zero.
    pub fn new() -> (flags: Self)
        ensures
            flags.0 == 0,
    {
        Flags11Nes2(0)
    }

    /// Wraps a raw byte.
    pub fn from_bits(bits: u8) -> (flags: Self)
        ensures
            flags.0 == bits,
    {
        Flags11Nes2(bits)
    }

    /// The raw byte.
    pub fn into_bits(self) -> (bits: u8)
        ensures
            bits == self.0,
    {
        self.0
    }

    /// Bits 0 to 3: the shift count of the CHR RAM size.
    pub open spec fn spec_chr_ram_shift(&self) -> u8 {
        self.0 % 16
    }

    /// Bits 0 to 3: the shift count of the CHR RAM size.
    #[verifier::when_used_as_spec(spec_chr_ram_shift)]
    pub fn chr_ram_shift(&self) -> (value: u8)
        ensures
            value == self.spec_chr_ram_shift(),
    {
        proof {
            lemma2_to64();
        }
        extract(self.0, 0, 4)
    }

    /// A copy with `value` in bits 0 to 3 and leaves the other fields as they are.
    pub fn with_chr_ram_shift(self, value: u8) -> (out: Self)
        requires
            value < 16,
        ensures
            out.0 == with_field(self.0, value, 0, 4),
            out.chr_ram_shift() == value,
            out.chr_nvram_shift() == self.chr_nvram_shift(),
    {
        let mut out = self;
        out.set_chr_ram_shift(value);
        out
    }

    /// Stores `value` in bits 0 to 3 and leaves the other fields as they are.
    pub fn set_chr_ram_shift(&mut self, value: u8)
        requires
            value < 16,
        ensures
            final(self).0 == with_field(old(self).0, value, 0, 4),
            final(self).chr_ram_shift() == value,
            final(self).chr_nvram_shift() == old(self).chr_nvram_shift(),
    {
        proof {
            lemma2_to64();
            lemma_read_stored(self.0, value, 0, 4);
            lemma_store_keeps_others(self.0, value, 0, 4, 4, 4);
        }
        self.0 = replace(self.0, value, 0, 4);
    }

    /// Bits 4 to 7: the shift count of the CHR NVRAM size.
    pub open spec fn spec_chr_nvram_shift(&self) -> u8 {
        self.0 / 16
    }

    /// Bits 4 to 7: the shift count of the CHR NVRAM size.
    #[verifier::when_used_as_spec(spec_chr_nvram_shift)]
    pub fn chr_nvram_shift(&self) -> (value: u8)
        ensures
            value == self.spec_chr_nvram_shift(),
    {
        proof {
            lemma2_to64();
        }
        extract(self.0, 4, 4)
    }

    /// A copy with `value` in bits 4 to 7 and leaves the other fields as they are.
    pub fn with_chr_nvram_shift(self, value: u8) -> (out: Self)
        requires
            value < 16,
        ensures
            out.0 == with_field(self.0, value, 4, 4),
            out.chr_nvram_shift() == value,
            out.chr_ram_shift() == self.chr_ram_shift(),
    {
        let mut out = self;
        out.set_chr_nvram_shift(value);
        out
    }

    /// Stores `value` in bits 4 to 7 and leaves the other fields as they are.
    pub fn set_chr_nvram_shift(&mut self, value: u8)
        requires
            value < 16,
        ensures
            final(self).0 == with_field(old(self).0, value, 4, 4),
            final(self).chr_nvram_shift() == value,
            final(self).chr_ram_shift() == old(self).chr_ram_shift(),
    {
        proof {
            lemma2_to64();
            lemma_read_stored(self.0, value, 4, 4);
            lemma_store_keeps_others(self.0, value, 4, 4, 0, 4);
        }
        self.0 = replace(self.0, value, 4, 4);
    }
}

impl Default for Flags11Nes2 {
    fn default() -> (flags: Self)
        ensures
            flags.0 == 0,
    {
        Flags11Nes2(0)
    }
}

/// Byte 12 in NES 2.0: the timing mode. The upper six bits are unused.
#[derive(Debug, Clone, Copy, PartialEq, Eq)]
pub struct Flags12Nes2(pub u8);

impl Flags12Nes2 {
    /// The byte with every field zero.
    pub fn new() -> (flags: Self)
        ensures
            flags.0 == 0,
    {
        Flags12Nes2(0)
    }

    /// Wraps a raw byte.
    pub fn from_bits(bits: u8) -> (flags: Self)
        ensures
            flags.0 == bits,
    {
        Flags12Nes2(bits)
    }

    /// The raw byte.
    pub fn into_bits(self) -> (bits: u8)
        ensures
            bits == self.0,
    {
        self.0
    }

    /// Bits 0 to 1: the CPU and PPU timing.
    pub open spec fn spec_timing_mode(&self) -> TimingMode {
        TimingMode::spec_from_bits(self.0 % 4)
    }

    /// Bits 0 to 1: the CPU and PPU timing.
    #[verifier::when_used_as_spec(spec_timing_mode)]
    pub fn timing_mode(&self) -> (value: TimingMode)
        ensures
            value == self.spec_timing_mode(),
    {
        proof {
            lemma2_to64();
        }
        TimingMode::from_bits(extract(self.0, 0, 2))
    }

    /// A copy with `value` in bits 0 to 1.
    pub fn with_timing_mode(self, value: TimingMode) -> (out: Self)
        ensures
            out.0 == with_field(self.0, value.into_bits(), 0, 2),
            out.timing_mode() == value,
    {
        let mut out = self;
        out.set_timing_mode(value);
        out
    }

    /// Stores `value` in bits 0 to 1.
    pub fn set_timing_mode(&mut self, value: TimingMode)
        ensures
            final(self).0 == with_field(old(self).0, value.into_bits(), 0, 2),
            final(self).timing_mode() == value,
    {
        proof {
            lemma2_to64();
            lemma_read_stored(self.0, value.into_bits(), 0, 2);
        }
        self.0 = replace(self.0, value.into_bits(), 0, 2);
    }
}

impl Default for Flags12Nes2 {
    fn default() -> (flags: Self)
        ensures
            flags.0 == 0,
    {
        Flags12Nes2(0)
    }
}


/// Byte 13 in NES 2.0. What it holds depends on the console type in byte 7.
#[derive(Debug, Clone, Copy, PartialEq, Eq)]
pub enum Flags13Nes2 {
    VsSystem(VsSystemType),
    ExtendedConsole(ExtendedConsoleType),
    UnusedForConsoleType(u8),
}

impl Flags13Nes2 {
    /// The raw byte, whichever way it was read.
    pub open spec fn spec_into_bits(self) -> u8 {
        match self {
            Flags13Nes2::VsSystem(vs) => vs.0,
            Flags13Nes2::ExtendedConsole(ec) => ec.0,
            Flags13Nes2::UnusedForConsoleType(value) => value,
        }
    }

    /// `value` read as the console type of `flags7` asks.
    pub open spec fn spec_from_bits(value: u8, flags7: Flags7) -> Self {
        match flags7.console() {
            ConsoleType::VsSystem => Flags13Nes2::VsSystem(VsSystemType(value)),
            ConsoleType::ExtendedConsole => Flags13Nes2::ExtendedConsole(
                ExtendedConsoleType(value),
            ),
            _ => Flags13Nes2::UnusedForConsoleType(value),
        }
    }

    /// The raw byte, whichever way it was read.
    #[verifier::when_used_as_spec(spec_into_bits)]
    pub fn into_bits(self) -> (bits: u8)
        ensures
            bits == self.spec_into_bits(),
    {
        match self {
            Flags13Nes2::VsSystem(vs) => vs.into_bits(),
            Flags13Nes2::ExtendedConsole(ec) => ec.into_bits(),
            Flags13Nes2::UnusedForConsoleType(value) => value,
        }
    }

    /// Reads byte 13 under the console type that `flags7` holds: a Vs. System
    /// pair, an extended console type, or the byte carried through as it is.
    #[verifier::when_used_as_spec(spec_from_bits)]
    pub fn from_bits(value: u8, flags7: Flags7) -> (flags: Self)
        ensures
            flags == Self::spec_from_bits(value, flags7),
            flags.into_bits() == value,
            flags is VsSystem <==> flags7.console() == ConsoleType::VsSystem,
            flags is ExtendedConsole <==> flags7.console() == ConsoleType::ExtendedConsole,
    {
        match flags7.console() {
            ConsoleType::VsSystem => Flags13Nes2::VsSystem(VsSystemType::from_bits(value)),
            ConsoleType::ExtendedConsole => Flags13Nes2::ExtendedConsole(
                ExtendedConsoleType::from_bits(value),
            ),
            _ => Flags13Nes2::UnusedForConsoleType(value),
        }
    }
}

} // verus!
