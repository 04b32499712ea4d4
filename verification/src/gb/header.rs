//! The header of a Game Boy image, bytes 0x100 to 0x14F.

use crate::bits::{extract, lemma_read_stored, replace, with_field};
use crate::gb::error::RomParseError;
use crate::text::{decode_lossy, lossy_text, push_char, trim, trimmed_text};
use vstd::arithmetic::power2::{lemma2_to64, pow2};
use vstd::bits::lemma_u32_shl_is_mul;
use vstd::prelude::*;
use vstd::slice::slice_subrange;

verus! {

/// Length of an image up to the end of its header.
pub const HEADER_END: usize = 0x150;

/// The bitmap that the boot ROM compares bytes 0x104 to 0x133 with.
pub const GB_LOGO: [u8; 48] = [
    0xCE, 0xED, 0x66, 0x66, 0xCC, 0x0D, 0x00, 0x0B, 0x03, 0x73, 0x00, 0x83, 0x00, 0x0C, 0x00, 0x0D,
    0x00, 0x08, 0x11, 0x1F, 0x88, 0x89, 0x00, 0x0E, 0xDC, 0xCC, 0x6E, 0xE6, 0xDD, 0xDD, 0xD9, 0x99,
    0xBB, 0xBB, 0x67, 0x63, 0x6E, 0x0E, 0xEC, 0xCC, 0xDD, 0xDC, 0x99, 0x9F, 0xBB, 0xB9, 0x33, 0x3E,
];

/// The console generation a header is written for.
#[derive(Debug, Clone, Copy, PartialEq, Eq)]
pub enum HeaderFormat {
    /// The monochrome Game Boy.
    GB,
    /// Game Boy Color.
    GBC,
}

/// The cartridge hardware that byte 0x147 names.
#[derive(Debug, Clone, Copy, PartialEq, Eq)]
pub enum CartridgeType {
    RomOnly,
    MBC1,
    MBC1Ram,
    MBC1RamBattery,
    MBC2,
    MBC2Battery,
    RomRam,
    RomRamBattery,
    MMM01,
    MMM01Ram,
    MMM01RamBattery,
    MBC3TimerBattery,
    MBC3TimerRamBattery,
    MBC3,
    MBC3Ram,
    MBC3RamBattery,
    MBC5,
    MBC5Ram,
    MBC5RamBattery,
    MBC5Rumble,
    MBC5RumbleRam,
    MBC5RumbleRamBattery,
    MBC6,
    MBC7SensorRumbleRamBattery,
    PocketCamera,
    BandaiTAMA5,
    HuC3,
    HuC1RamBattery,
}

impl CartridgeType {
    /// The code of the cartridge type in byte 0x147.
    pub open spec fn spec_into_bits(self) -> u8 {
        match self {
            CartridgeType::RomOnly => 0x00,
            CartridgeType::MBC1 => 0x01,
            CartridgeType::MBC1Ram => 0x02,
            CartridgeType::MBC1RamBattery => 0x03,
            CartridgeType::MBC2 => 0x05,
            CartridgeType::MBC2Battery => 0x06,
            CartridgeType::RomRam => 0x08,
            CartridgeType::RomRamBattery => 0x09,
            CartridgeType::MMM01 => 0x0B,
            CartridgeType::MMM01Ram => 0x0C,
            CartridgeType::MMM01RamBattery => 0x0D,
            CartridgeType::MBC3TimerBattery => 0x0F,
            CartridgeType::MBC3TimerRamBattery => 0x10,
            CartridgeType::MBC3 => 0x11,
            CartridgeType::MBC3Ram => 0x12,
            CartridgeType::MBC3RamBattery => 0x13,
            CartridgeType::MBC5 => 0x19,
            CartridgeType::MBC5Ram => 0x1A,
            CartridgeType::MBC5RamBattery => 0x1B,
            CartridgeType::MBC5Rumble => 0x1C,
            CartridgeType::MBC5RumbleRam => 0x1D,
            CartridgeType::MBC5RumbleRamBattery => 0x1E,
            CartridgeType::MBC6 => 0x20,
            CartridgeType::MBC7SensorRumbleRamBattery => 0x22,
            CartridgeType::PocketCamera => 0xFC,
            CartridgeType::BandaiTAMA5 => 0xFD,
            CartridgeType::HuC3 => 0xFE,
            CartridgeType::HuC1RamBattery => 0xFF,
        }
    }

    /// The cartridge type with the code `value`, if there is one.
    pub open spec fn spec_from_bits(value: u8) -> Option<Self> {
        match value {
            0x00 => Some(CartridgeType::RomOnly),
            0x01 => Some(CartridgeType::MBC1),
            0x02 => Some(CartridgeType::MBC1Ram),
            0x03 => Some(CartridgeType::MBC1RamBattery),
            0x05 => Some(CartridgeType::MBC2),
            0x06 => Some(CartridgeType::MBC2Battery),
            0x08 => Some(CartridgeType::RomRam),
            0x09 => Some(CartridgeType::RomRamBattery),
            0x0B => Some(CartridgeType::MMM01),
            0x0C => Some(CartridgeType::MMM01Ram),
            0x0D => Some(CartridgeType::MMM01RamBattery),
            0x0F => Some(CartridgeType::MBC3TimerBattery),
            0x10 => Some(CartridgeType::MBC3TimerRamBattery),
            0x11 => Some(CartridgeType::MBC3),
            0x12 => Some(CartridgeType::MBC3Ram),
            0x13 => Some(CartridgeType::MBC3RamBattery),
            0x19 => Some(CartridgeType::MBC5),
            0x1A => Some(CartridgeType::MBC5Ram),
            0x1B => Some(CartridgeType::MBC5RamBattery),
            0x1C => Some(CartridgeType::MBC5Rumble),
            0x1D => Some(CartridgeType::MBC5RumbleRam),
            0x1E => Some(CartridgeType::MBC5RumbleRamBattery),
            0x20 => Some(CartridgeType::MBC6),
            0x22 => Some(CartridgeType::MBC7SensorRumbleRamBattery),
            0xFC => Some(CartridgeType::PocketCamera),
            0xFD => Some(CartridgeType::BandaiTAMA5),
            0xFE => Some(CartridgeType::HuC3),
            0xFF => Some(CartridgeType::HuC1RamBattery),
            _ => None,
        }
    }

    /// The code of the cartridge type in byte 0x147.
    #[verifier::when_used_as_spec(spec_into_bits)]
    pub fn into_bits(self) -> (bits: u8)
        ensures
            bits == self.spec_into_bits(),
    {
        match self {
            CartridgeType::RomOnly => 0x00,
            CartridgeType::MBC1 => 0x01,
            CartridgeType::MBC1Ram => 0x02,
            CartridgeType::MBC1RamBattery => 0x03,
            CartridgeType::MBC2 => 0x05,
            CartridgeType::MBC2Battery => 0x06,
            CartridgeType::RomRam => 0x08,
            CartridgeType::RomRamBattery => 0x09,
            CartridgeType::MMM01 => 0x0B,
            CartridgeType::MMM01Ram => 0x0C,
            CartridgeType::MMM01RamBattery => 0x0D,
            CartridgeType::MBC3TimerBattery => 0x0F,
            CartridgeType::MBC3TimerRamBattery => 0x10,
            CartridgeType::MBC3 => 0x11,
            CartridgeType::MBC3Ram => 0x12,
            CartridgeType::MBC3RamBattery => 0x13,
            CartridgeType::MBC5 => 0x19,
            CartridgeType::MBC5Ram => 0x1A,
            CartridgeType::MBC5RamBattery => 0x1B,
            CartridgeType::MBC5Rumble => 0x1C,
            CartridgeType::MBC5RumbleRam => 0x1D,
            CartridgeType::MBC5RumbleRamBattery => 0x1E,
            CartridgeType::MBC6 => 0x20,
            CartridgeType::MBC7SensorRumbleRamBattery => 0x22,
            CartridgeType::PocketCamera => 0xFC,
            CartridgeType::BandaiTAMA5 => 0xFD,
            CartridgeType::HuC3 => 0xFE,
            CartridgeType::HuC1RamBattery => 0xFF,
        }
    }

    /// The cartridge type with the code `value`, or `None` where no type has
    /// that code.
    #[verifier::when_used_as_spec(spec_from_bits)]
    pub fn from_bits(value: u8) -> (found: Option<Self>)
        ensures
            found == Self::spec_from_bits(value),
            found matches Some(kind) ==> kind.into_bits() == value,
            found is None ==> forall|kind: CartridgeType| kind.into_bits() != value,
    {
        match value {
            0x00 => Some(CartridgeType::RomOnly),
            0x01 => Some(CartridgeType::MBC1),
            0x02 => Some(CartridgeType::MBC1Ram),
            0x03 => Some(CartridgeType::MBC1RamBattery),
            0x05 => Some(CartridgeType::MBC2),
            0x06 => Some(CartridgeType::MBC2Battery),
            0x08 => Some(CartridgeType::RomRam),
            0x09 => Some(CartridgeType::RomRamBattery),
            0x0B => Some(CartridgeType::MMM01),
            0x0C => Some(CartridgeType::MMM01Ram),
            0x0D => Some(CartridgeType::MMM01RamBattery),
            0x0F => Some(CartridgeType::MBC3TimerBattery),
            0x10 => Some(CartridgeType::MBC3TimerRamBattery),
            0x11 => Some(CartridgeType::MBC3),
            0x12 => Some(CartridgeType::MBC3Ram),
            0x13 => Some(CartridgeType::MBC3RamBattery),
            0x19 => Some(CartridgeType::MBC5),
            0x1A => Some(CartridgeType::MBC5Ram),
            0x1B => Some(CartridgeType::MBC5RamBattery),
            0x1C => Some(CartridgeType::MBC5Rumble),
            0x1D => Some(CartridgeType::MBC5RumbleRam),
            0x1E => Some(CartridgeType::MBC5RumbleRamBattery),
            0x20 => Some(CartridgeType::MBC6),
            0x22 => Some(CartridgeType::MBC7SensorRumbleRamBattery),
            0xFC => Some(CartridgeType::PocketCamera),
            0xFD => Some(CartridgeType::BandaiTAMA5),
            0xFE => Some(CartridgeType::HuC3),
            0xFF => Some(CartridgeType::HuC1RamBattery),
            _ => None,
        }
    }

    /// Every cartridge type is found again under its own code.
    pub proof fn lemma_code_names_type(self)
        ensures
            Self::spec_from_bits(self.spec_into_bits()) == Some(self),
    {
    }

    /// Whether the cartridge keeps its RAM or clock alive with a battery.
    pub open spec fn spec_has_battery(self) -> bool {
        let code = self.spec_into_bits();
        code == 0x03 || code == 0x06 || code == 0x09 || code == 0x0D || code == 0x0F || code == 0x10
            || code == 0x13 || code == 0x1B || code == 0x1E || code == 0x22 || code == 0xFF
    }
}

/// Byte 0x143: Game Boy Color support in the top bit. The low seven bits are
/// reserved.
#[derive(Debug, Clone, Copy, PartialEq, Eq)]
pub struct GbcFlags(pub u8);

impl GbcFlags {
    /// The byte with every field zero.
    pub fn new() -> (flags: Self)
        ensures
            flags.0 == 0,
    {
        GbcFlags(0)
    }

    /// Wraps a raw byte.
    pub fn from_bits(bits: u8) -> (flags: Self)
        ensures
            flags.0 == bits,
    {
        GbcFlags(bits)
    }

    /// The raw byte.
    pub fn into_bits(self) -> (bits: u8)
        ensures
            bits == self.0,
    {
        self.0
    }

    /// Bit 7: the game supports Game Boy Color features.
    pub open spec fn spec_gbc_support(&self) -> bool {
        self.0 / 128 == 1
    }

    /// Bit 7: the game supports Game Boy Color features.
    #[verifier::when_used_as_spec(spec_gbc_support)]
    pub fn gbc_support(&self) -> (set: bool)
        ensures
            set == self.spec_gbc_support(),
    {
        proof {
            lemma2_to64();
        }
        extract(self.0, 7, 1) != 0
    }

    /// A copy with `value` in bit 7.
    pub fn with_gbc_support(self, value: bool) -> (out: Self)
        ensures
            out.0 == with_field(self.0, if value { 1u8 } else { 0u8 }, 7, 1),
            out.gbc_support() == value,
    {
        let mut out = self;
        out.set_gbc_support(value);
        out
    }

    /// Stores `value` in bit 7.
    pub fn set_gbc_support(&mut self, value: bool)
        ensures
            final(self).0 == with_field(old(self).0, if value { 1u8 } else { 0u8 }, 7, 1),
            final(self).gbc_support() == value,
    {
        proof {
            lemma2_to64();
            lemma_read_stored(self.0, if value { 1u8 } else { 0u8 }, 7, 1);
        }
        self.0 = replace(self.0, if value { 1 } else { 0 }, 7, 1);
    }
}

impl Default for GbcFlags {
    fn default() -> (flags: Self)
        ensures
            flags.0 == 0,
    {
        GbcFlags(0)
    }
}

/// Byte 0x146: Super Game Boy support in the top bit. The low seven bits are
/// reserved.
#[derive(Debug, Clone, Copy, PartialEq, Eq)]
pub struct SgbFlags(pub u8);

impl SgbFlags {
    /// The byte with every field zero.
    pub fn new() -> (flags: Self)
        ensures
            flags.0 == 0,
    {
        SgbFlags(0)
    }

    /// Wraps a raw byte.
    pub fn from_bits(bits: u8) -> (flags: Self)
        ensures
            flags.0 == bits,
    {
        SgbFlags(bits)
    }

    /// The raw byte.
    pub fn into_bits(self) -> (bits: u8)
        ensures
            bits == self.0,
    {
        self.0
    }

    /// Bit 7: the game supports Super Game Boy features.
    pub open spec fn spec_sgb_support(&self) -> bool {
        self.0 / 128 == 1
    }

    /// Bit 7: the game supports Super Game Boy features.
    #[verifier::when_used_as_spec(spec_sgb_support)]
    pub fn sgb_support(&self) -> (set: bool)
        ensures
            set == self.spec_sgb_support(),
    {
        proof {
            lemma2_to64();
        }
        extract(self.0, 7, 1) != 0
    }

    /// A copy with `value` in bit 7.
    pub fn with_sgb_support(self, value: bool) -> (out: Self)
        ensures
            out.0 == with_field(self.0, if value { 1u8 } else { 0u8 }, 7, 1),
            out.sgb_support() == value,
    {
        let mut out = self;
        out.set_sgb_support(value);
        out
    }

    /// Stores `value` in bit 7.
    pub fn set_sgb_support(&mut self, value: bool)
        ensures
            final(self).0 == with_field(old(self).0, if value { 1u8 } else { 0u8 }, 7, 1),
            final(self).sgb_support() == value,
    {
        proof {
            lemma2_to64();
            lemma_read_stored(self.0, if value { 1u8 } else { 0u8 }, 7, 1);
        }
        self.0 = replace(self.0, if value { 1 } else { 0 }, 7, 1);
    }
}

impl Default for SgbFlags {
    fn default() -> (flags: Self)
        ensures
            flags.0 == 0,
    {
        SgbFlags(0)
    }
}


/// What the header bytes of a Game Boy image say.
#[derive(Debug, Clone, PartialEq, Eq)]
pub struct GbHeader {
    /// Entry point, bytes 0x100 to 0x103.
    pub entry_point: [u8; 4],
    /// The logo bitmap, bytes 0x104 to 0x133.
    pub nintendo_logo: [u8; 48],
    /// Game title, up to its first zero byte.
    pub title: String,
    /// Manufacturer code, where the header marks Game Boy Color support and
    /// the code is more than white space.
    pub manufacturer_code: Option<String>,
    /// Byte 0x143.
    pub gbc_flags: GbcFlags,
    /// New licensee code, bytes 0x144 and 0x145; it counts where the old
    /// licensee code is 0x33.
    pub new_licensee_code: [u8; 2],
    /// Byte 0x146.
    pub sgb_flags: SgbFlags,
    /// Cartridge hardware, from byte 0x147.
    pub cartridge_type: CartridgeType,
    /// ROM size in bytes, from byte 0x148.
    pub rom_size: u32,
    /// RAM size in bytes, from byte 0x149.
    pub ram_size: u32,
    /// Destination code, byte 0x14A: zero for Japan.
    pub destination: u8,
    /// Old licensee code, byte 0x14B.
    pub old_licensee_code: u8,
    /// Mask ROM version, byte 0x14C.
    pub version: u8,
    /// Header checksum, byte 0x14D.
    pub header_checksum: u8,
    /// Global checksum, bytes 0x14E and 0x14F, high byte first. It is read
    /// and not checked.
    pub global_checksum: u16,
}

/// A header with its arrays and strings as sequences.
pub struct GbHeaderView {
    pub entry_point: Seq<u8>,
    pub nintendo_logo: Seq<u8>,
    pub title: Seq<char>,
    pub manufacturer_code: Option<Seq<char>>,
    pub gbc_flags: GbcFlags,
    pub new_licensee_code: Seq<u8>,
    pub sgb_flags: SgbFlags,
    pub cartridge_type: CartridgeType,
    pub rom_size: u32,
    pub ram_size: u32,
    pub destination: u8,
    pub old_licensee_code: u8,
    pub version: u8,
    pub header_checksum: u8,
    pub global_checksum: u16,
}

impl View for GbHeader {
    type V = GbHeaderView;

    open spec fn view(&self) -> GbHeaderView {
        GbHeaderView {
            entry_point: self.entry_point@,
            nintendo_logo: self.nintendo_logo@,
            title: self.title@,
            manufacturer_code: match self.manufacturer_code {
                Some(code) => Some(code@),
                None => None,
            },
            gbc_flags: self.gbc_flags,
            new_licensee_code: self.new_licensee_code@,
            sgb_flags: self.sgb_flags,
            cartridge_type: self.cartridge_type,
            rom_size: self.rom_size,
            ram_size: self.ram_size,
            destination: self.destination,
            old_licensee_code: self.old_licensee_code,
            version: self.version,
            header_checksum: self.header_checksum,
            global_checksum: self.global_checksum,
        }
    }
}

impl GbHeaderView {
    /// The header is one that decoding can give: it holds the logo, a title
    /// of at most sixteen characters with codes from 1 to 255, and a
    /// manufacturer code only beside a Game Boy Color marker.
    pub open spec fn wf(self) -> bool {
        &&& self.entry_point.len() == 4
        &&& self.nintendo_logo == GB_LOGO@
        &&& self.new_licensee_code.len() == 2
        &&& self.title.len() <= 16
        &&& forall|i: int| 0 <= i < self.title.len() ==> 1 <= #[trigger] self.title[i] as u32 <= 255
        &&& self.manufacturer_code is Some ==> (self.gbc_flags.0 == 0x80 || self.gbc_flags.0
            == 0xC0) && self.title.len() <= 11
    }
}

/// Bytes 0x104 to 0x133 are the logo.
pub open spec fn has_logo(bytes: Seq<u8>) -> bool {
    bytes.len() >= 0x134 && bytes.subrange(0x104, 0x134) == GB_LOGO@
}

/// Byte 0x143 is one of the two Game Boy Color markers. With a marker the
/// title field is the shorter one and a manufacturer code follows it.
pub open spec fn marks_color(bytes: Seq<u8>) -> bool {
    bytes[0x143] == 0x80 || bytes[0x143] == 0xC0
}

/// Where the title field ends: before the manufacturer code where there is a
/// color marker, else after byte 0x143.
pub open spec fn title_field_end(bytes: Seq<u8>) -> int {
    if marks_color(bytes) {
        0x13F
    } else {
        0x144
    }
}

/// The first offset from `from` on, below `to`, that holds a zero byte; `to`
/// where there is none.
pub open spec fn text_end(bytes: Seq<u8>, from: int, to: int) -> int
    decreases to - from,
{
    if from >= to {
        to
    } else if bytes[from] == 0 {
        from
    } else {
        text_end(bytes, from + 1, to)
    }
}

/// The title: the bytes of the title field up to its first zero byte, each
/// byte as the character with that code.
pub open spec fn title_text(bytes: Seq<u8>) -> Seq<char> {
    Seq::new(
        (text_end(bytes, 0x134, title_field_end(bytes)) - 0x134) as nat,
        |i: int| bytes[0x134 + i] as char,
    )
}

/// Sum of the bytes of a sequence.
pub open spec fn byte_sum(bytes: Seq<u8>) -> int
    decreases bytes.len(),
{
    if bytes.len() == 0 {
        0
    } else {
        byte_sum(bytes.drop_last()) + bytes.last()
    }
}

/// The checksum of a region: zero, less each byte and less one for each
/// byte, in eight bits.
pub open spec fn checksum(region: Seq<u8>) -> u8 {
    ((0 - byte_sum(region) - region.len()) % 256) as u8
}

/// The checksum that byte 0x14D must hold: that of bytes 0x134 to 0x14C.
pub open spec fn header_checksum(bytes: Seq<u8>) -> u8 {
    checksum(bytes.subrange(0x134, 0x14D))
}

/// The buffer passes every check of the decoder: it holds the whole header
/// region, the logo, a known cartridge type, and the checksum of its header.
pub open spec fn passes_checks(bytes: Seq<u8>) -> bool {
    &&& bytes.len() >= 0x150
    &&& has_logo(bytes)
    &&& CartridgeType::spec_from_bits(bytes[0x147]) is Some
    &&& header_checksum(bytes) == bytes[0x14D]
}

/// ROM size in bytes for the exponent in byte 0x148: 32 KiB doubled
/// `exponent` times. A size beyond 32 bits reads as `u32::MAX`.
pub open spec fn rom_bytes(exponent: u8) -> u32 {
    if exponent <= 16 {
        (32768 * pow2(exponent as nat)) as u32
    } else {
        u32::MAX
    }
}

/// RAM size in bytes for the code in byte 0x149. An unknown code means no RAM.
pub open spec fn ram_bytes(code: u8) -> u32 {
    if code == 1 {
        2048
    } else if code == 2 {
        8192
    } else if code == 3 {
        32768
    } else if code == 4 {
        131072
    } else if code == 5 {
        65536
    } else {
        0
    }
}

/// ROM size in bytes for the exponent in byte 0x148.
pub fn rom_size_from(exponent: u8) -> (size: u32)
    ensures
        size == rom_bytes(exponent),
{
    if exponent <= 16 {
        proof {
            lemma2_to64();
            lemma_u32_shl_is_mul(32768u32, exponent as u32);
        }
        32768u32 << (exponent as u32)
    } else {
        u32::MAX
    }
}

/// RAM size in bytes for the code in byte 0x149.
pub fn ram_size_from(code: u8) -> (size: u32)
    ensures
        size == ram_bytes(code),
{
    match code {
        0x01 => 2 * 1024,
        0x02 => 8 * 1024,
        0x03 => 32 * 1024,
        0x04 => 128 * 1024,
        0x05 => 64 * 1024,
        _ => 0,
    }
}

/// `text_end` stays inside its range, passes no zero byte, and stops on one
/// unless it reaches the end of the range.
pub proof fn lemma_text_end(bytes: Seq<u8>, from: int, to: int)
    requires
        from <= to,
    ensures
        from <= text_end(bytes, from, to) <= to,
        forall|k: int| from <= k < text_end(bytes, from, to) ==> bytes[k] != 0,
        text_end(bytes, from, to) < to ==> bytes[text_end(bytes, from, to)] == 0,
    decreases to - from,
{
    if from < to && bytes[from] != 0 {
        lemma_text_end(bytes, from + 1, to);
    }
}

/// A search for the end of the text may start past any stretch without a
/// zero byte.
proof fn lemma_text_end_skips(bytes: Seq<u8>, from: int, at: int, to: int)
    requires
        from <= at <= to,
        forall|k: int| from <= k < at ==> bytes[k] != 0,
    ensures
        text_end(bytes, from, to) == text_end(bytes, at, to),
    decreases at - from,
{
    if from < at {
        lemma_text_end_skips(bytes, from + 1, at, to);
    }
}

/// What decodes is well formed.
pub proof fn lemma_decoded_is_wf(bytes: Seq<u8>, code_text: Seq<char>, code_trimmed: Seq<char>)
    ensures
        GbHeader::decoded_with(bytes, code_text, code_trimmed) matches Ok(header) ==> header.wf(),
{
    if GbHeader::decoded_with(bytes, code_text, code_trimmed) is Ok {
        lemma_text_end(bytes, 0x134, title_field_end(bytes));
    }
}

/// Changing one byte of a sequence changes the sum by the difference of the
/// new byte and the old.
proof fn lemma_byte_sum_update(bytes: Seq<u8>, at: int, value: u8)
    requires
        0 <= at < bytes.len(),
    ensures
        byte_sum(bytes.update(at, value)) == byte_sum(bytes) - bytes[at] + value,
    decreases bytes.len(),
{
    let changed = bytes.update(at, value);
    if at == bytes.len() - 1 {
        assert(changed.drop_last() =~= bytes.drop_last());
    } else {
        assert(changed.drop_last() =~= bytes.drop_last().update(at, value));
        lemma_byte_sum_update(bytes.drop_last(), at, value);
    }
}

/// A header that decodes stops decoding when one byte of the checksummed
/// region, 0x134 to 0x14C, is changed and byte 0x14D is left as it was: the
/// result is `InvalidHeaderChecksum`. A change of byte 0x147 to a code that
/// names no cartridge type is left out, as that check comes first.
pub proof fn lemma_changed_byte_fails_checksum(bytes: Seq<u8>, at: int, value: u8)
    requires
        GbHeader::decoded(bytes) is Ok,
        0x134 <= at < 0x14D,
        value != bytes[at],
        CartridgeType::spec_from_bits(bytes.update(at, value)[0x147]) is Some,
    ensures
        GbHeader::decoded(bytes.update(at, value)) == Err::<GbHeaderView, _>(
            RomParseError::InvalidHeaderChecksum,
        ),
{
    let changed = bytes.update(at, value);
    let region = bytes.subrange(0x134, 0x14D);
    assert(changed.subrange(0x104, 0x134) =~= bytes.subrange(0x104, 0x134));
    assert(changed.subrange(0x134, 0x14D) =~= region.update(at - 0x134, value));
    lemma_byte_sum_update(region, at - 0x134, value);
}

/// Decoding is a function of the buffer: two results for one buffer are equal,
/// field by field.
pub proof fn lemma_decoding_repeats(
    bytes: Seq<u8>,
    first: Result<GbHeaderView, RomParseError>,
    second: Result<GbHeaderView, RomParseError>,
)
    requires
        first == GbHeader::decoded(bytes),
        second == GbHeader::decoded(bytes),
    ensures
        first == second,
{
}

impl GbHeader {
    /// What decoding gives, with the text of the manufacturer code field and
    /// that text without surrounding white space handed in.
    ///
    /// The checks come in this order: length, logo, cartridge type, header
    /// checksum. The first that fails names the error.
    pub open spec fn decoded_with(
        bytes: Seq<u8>,
        code_text: Seq<char>,
        code_trimmed: Seq<char>,
    ) -> Result<GbHeaderView, RomParseError> {
        if bytes.len() < 0x150 {
            Err(RomParseError::HeaderTooShort)
        } else if !has_logo(bytes) {
            Err(RomParseError::InvalidLogo)
        } else if CartridgeType::spec_from_bits(bytes[0x147]) is None {
            Err(RomParseError::InvalidCartridgeType)
        } else if header_checksum(bytes) != bytes[0x14D] {
            Err(RomParseError::InvalidHeaderChecksum)
        } else {
            Ok(
                GbHeaderView {
                    entry_point: bytes.subrange(0x100, 0x104),
                    nintendo_logo: bytes.subrange(0x104, 0x134),
                    title: title_text(bytes),
                    manufacturer_code: if marks_color(bytes) && code_trimmed.len() != 0 {
                        Some(code_text)
                    } else {
                        None
                    },
                    gbc_flags: GbcFlags(bytes[0x143]),
                    new_licensee_code: bytes.subrange(0x144, 0x146),
                    sgb_flags: SgbFlags(bytes[0x146]),
                    cartridge_type: CartridgeType::spec_from_bits(bytes[0x147])->Some_0,
                    rom_size: rom_bytes(bytes[0x148]),
                    ram_size: ram_bytes(bytes[0x149]),
                    destination: bytes[0x14A],
                    old_licensee_code: bytes[0x14B],
                    version: bytes[0x14C],
                    header_checksum: bytes[0x14D],
                    global_checksum: (bytes[0x14E] * 256 + bytes[0x14F]) as u16,
                },
            )
        }
    }

    /// What decoding a buffer gives. The manufacturer code field, bytes 0x13F
    /// to 0x142, is read as UTF-8 with replacement characters, and kept
    /// unless trimming leaves nothing of it.
    pub open spec fn decoded(bytes: Seq<u8>) -> Result<GbHeaderView, RomParseError> {
        Self::decoded_with(
            bytes,
            lossy_text(bytes.subrange(0x13F, 0x143)),
            trimmed_text(lossy_text(bytes.subrange(0x13F, 0x143))),
        )
    }

    /// Decodes the header of a Game Boy image.
    ///
    /// Fails with `HeaderTooShort` on fewer than 0x150 bytes, then with
    /// `InvalidLogo`, `InvalidCartridgeType` or `InvalidHeaderChecksum`,
    /// whichever check fails first. Every other buffer decodes.
    pub fn from_bytes(bytes: &[u8]) -> (result: Result<Self, RomParseError>)
        ensures
            match result {
                Ok(header) => Self::decoded(bytes@) == Ok::<_, RomParseError>(header@),
                Err(error) => Self::decoded(bytes@) == Err::<GbHeaderView, _>(error),
            },
            bytes@.len() < 0x150 ==> result == Err::<Self, _>(RomParseError::HeaderTooShort),
            result is Ok <==> passes_checks(bytes@),
            result matches Ok(header) ==> header@.wf(),
    {
        if bytes.len() < HEADER_END {
            return Err(RomParseError::HeaderTooShort);
        }
        let code_text = decode_lossy(slice_subrange(bytes, 0x13F, 0x143));
        let code_trimmed = trim(code_text.as_str());
        Self::from_parts(bytes, code_text.as_str(), code_trimmed)
    }

    /// Decodes the header of a Game Boy image, given the text of its
    /// manufacturer code field and that text without the white space around
    /// it. The code is kept where the header marks Game Boy Color support and
    /// `code_trimmed` is not empty.
    pub fn from_parts(bytes: &[u8], code_text: &str, code_trimmed: &str) -> (result: Result<
        Self,
        RomParseError,
    >)
        ensures
            match result {
                Ok(header) => Self::decoded_with(bytes@, code_text@, code_trimmed@) == Ok::<
                    _,
                    RomParseError,
                >(header@),
                Err(error) => Self::decoded_with(bytes@, code_text@, code_trimmed@) == Err::<
                    GbHeaderView,
                    _,
                >(error),
            },
            result is Ok <==> passes_checks(bytes@),
            result matches Ok(header) ==> header@.wf(),
    {
        proof {
            lemma_decoded_is_wf(bytes@, code_text@, code_trimmed@);
        }
        if bytes.len() < HEADER_END {
            return Err(RomParseError::HeaderTooShort);
        }
        let mut nintendo_logo: [u8; 48] = [0u8; 48];
        let mut i: usize = 0;
        while i < 48
            invariant
                i <= 48,
                bytes@.len() >= 0x150,
                forall|k: int| 0 <= k < i ==> bytes@[0x104 + k] == GB_LOGO[k],
                forall|k: int| 0 <= k < i ==> nintendo_logo@[k] == bytes@[0x104 + k],
            decreases 48 - i,
        {
            if bytes[0x104 + i] != GB_LOGO[i] {
                assert(bytes@.subrange(0x104, 0x134)[i as int] != GB_LOGO@[i as int]);
                return Err(RomParseError::InvalidLogo);
            }
            nintendo_logo[i] = bytes[0x104 + i];
            i += 1;
        }
        assert(bytes@.subrange(0x104, 0x134) =~= GB_LOGO@);
        assert(nintendo_logo@ =~= bytes@.subrange(0x104, 0x134));

        let color = bytes[0x143] == 0x80 || bytes[0x143] == 0xC0;
        let title_end: usize = if color {
            0x13F
        } else {
            0x144
        };
        let mut title = String::new();
        let mut at: usize = 0x134;
        while at < title_end && bytes[at] != 0
            invariant
                0x134 <= at <= title_end <= 0x144,
                bytes@.len() >= 0x150,
                forall|k: int| 0x134 <= k < at ==> bytes@[k] != 0,
                title@ == Seq::new((at - 0x134) as nat, |i: int| bytes@[0x134 + i] as char),
            decreases title_end - at,
        {
            push_char(&mut title, bytes[at] as char);
            at += 1;
        }
        proof {
            lemma_text_end_skips(bytes@, 0x134, at as int, title_end as int);
        }

        let manufacturer_code = if color && !code_trimmed.is_empty() {
            Some(code_text.to_owned())
        } else {
            None
        };

        let cartridge_type = match CartridgeType::from_bits(bytes[0x147]) {
            Some(kind) => kind,
            None => {
                return Err(RomParseError::InvalidCartridgeType);
            },
        };

        let mut sum: u8 = 0;
        let mut j: usize = 0x134;
        while j < 0x14D
            invariant
                0x134 <= j <= 0x14D,
                bytes@.len() >= 0x150,
                sum == checksum(bytes@.subrange(0x134, j as int)),
            decreases 0x14D - j,
        {
            proof {
                let next = bytes@.subrange(0x134, j + 1);
                assert(next.drop_last() =~= bytes@.subrange(0x134, j as int));
            }
            sum = sum.wrapping_sub(bytes[j]).wrapping_sub(1);
            j += 1;
        }
        if sum != bytes[0x14D] {
            return Err(RomParseError::InvalidHeaderChecksum);
        }

        let entry_point = [bytes[0x100], bytes[0x101], bytes[0x102], bytes[0x103]];
        let new_licensee_code = [bytes[0x144], bytes[0x145]];
        assert(entry_point@ =~= bytes@.subrange(0x100, 0x104));
        assert(new_licensee_code@ =~= bytes@.subrange(0x144, 0x146));

        Ok(
            GbHeader {
                entry_point,
                nintendo_logo,
                title,
                manufacturer_code,
                gbc_flags: GbcFlags::from_bits(bytes[0x143]),
                new_licensee_code,
                sgb_flags: SgbFlags::from_bits(bytes[0x146]),
                cartridge_type,
                rom_size: rom_size_from(bytes[0x148]),
                ram_size: ram_size_from(bytes[0x149]),
                destination: bytes[0x14A],
                old_licensee_code: bytes[0x14B],
                version: bytes[0x14C],
                header_checksum: bytes[0x14D],
                global_checksum: (bytes[0x14E] as u16) * 256 + (bytes[0x14F] as u16),
            },
        )
    }

    /// Whether the game supports Game Boy Color features.
    pub fn is_gbc(&self) -> (yes: bool)
        ensures
            yes == self.gbc_flags.gbc_support(),
            yes == (self.gbc_flags.0 >= 0x80),
    {
        self.gbc_flags.gbc_support()
    }

    /// Whether the game supports Super Game Boy features.
    pub fn is_sgb(&self) -> (yes: bool)
        ensures
            yes == self.sgb_flags.sgb_support(),
            yes == (self.sgb_flags.0 >= 0x80),
    {
        self.sgb_flags.sgb_support()
    }

    /// Whether the cartridge holds a battery.
    pub fn has_battery(&self) -> (yes: bool)
        ensures
            yes == self.cartridge_type.spec_has_battery(),
    {
        match self.cartridge_type {
            CartridgeType::MBC1RamBattery
            | CartridgeType::MBC2Battery
            | CartridgeType::RomRamBattery
            | CartridgeType::MMM01RamBattery
            | CartridgeType::MBC3TimerBattery
            | CartridgeType::MBC3TimerRamBattery
            | CartridgeType::MBC3RamBattery
            | CartridgeType::MBC5RamBattery
            | CartridgeType::MBC5RumbleRamBattery
            | CartridgeType::MBC7SensorRumbleRamBattery
            | CartridgeType::HuC1RamBattery => true,
            _ => false,
        }
    }

    /// Whether the cartridge has RAM, with a battery or without.
    pub fn has_ram(&self) -> (yes: bool)
        ensures
            yes == (self.ram_size > 0),
    {
        self.ram_size > 0
    }

    /// Whether the game was made for Japan.
    pub fn is_japanese(&self) -> (yes: bool)
        ensures
            yes == (self.destination == 0),
    {
        self.destination == 0x00
    }
}

} // verus!
