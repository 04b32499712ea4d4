//! The 16-byte header of an NES image.

pub use crate::nes::flags::{
    ConsoleType, ExtendedConsoleType, Flags10Nes2, Flags11Nes2, Flags12Nes2, Flags13Nes2, Flags6,
    Flags7, Flags8Nes2, Flags9Nes2, TimingMode, VsSystemType,
};
use vstd::arithmetic::power2::{lemma2_to64, pow2};
use vstd::bits::lemma_u32_shl_is_mul;
use vstd::prelude::*;

verus! {

/// Length of the header in bytes.
pub const HEADER_SIZE: usize = 16;

/// The four bytes every header starts with: `NES` and an end-of-file mark.
pub const NES_MAGIC: [u8; 4] = [0x4E, 0x45, 0x53, 0x1A];

/// Which revision of the format a header is written in.
#[derive(Debug, Clone, Copy, PartialEq, Eq)]
pub enum HeaderFormat {
    /// iNES, the first revision.
    INes,
    /// NES 2.0, which extends iNES.
    Nes2,
}

/// Why a header was turned down.
#[derive(Debug, Clone, Copy, PartialEq, Eq)]
pub enum HeaderParseError {
    /// Fewer than 16 bytes were given.
    TooShort,
    /// The first four bytes are not the NES signature.
    InvalidMagic,
}

impl HeaderParseError {
    /// The error as a sentence.
    pub fn message(&self) -> (text: String)
        ensures
            text@ == match *self {
                HeaderParseError::TooShort => "header too short"@,
                HeaderParseError::InvalidMagic => "invalid NES header magic"@,
            },
    {
        match self {
            HeaderParseError::TooShort => "header too short".to_owned(),
            HeaderParseError::InvalidMagic => "invalid NES header magic".to_owned(),
        }
    }
}

/// A RAM size as the header's format states it.
#[derive(Debug, Clone, Copy, PartialEq, Eq)]
pub enum RamSize {
    /// iNES: one size in bytes.
    Ines(u32),
    /// NES 2.0: volatile and battery-backed RAM, each in bytes.
    Nes2 { ram: u32, nvram: u32 },
}

/// The size in bytes that a NES 2.0 shift count stands for: nothing for zero,
/// else 64 doubled `shift` times.
pub open spec fn shifted_size(shift: u8) -> nat {
    if shift == 0 {
        0
    } else {
        64 * pow2(shift as nat)
    }
}

/// The size in bytes that a four-bit NES 2.0 shift count stands for.
pub fn size_from_shift(shift: u8) -> (size: u32)
    requires
        shift < 16,
    ensures
        size == shifted_size(shift),
{
    if shift == 0 {
        0
    } else {
        proof {
            lemma2_to64();
            lemma_u32_shl_is_mul(64u32, shift as u32);
        }
        64u32 << (shift as u32)
    }
}

/// What the sixteen header bytes say about an image.
#[derive(Debug, Clone, Copy, PartialEq, Eq)]
pub struct InesHeader {
    /// Which revision of the format the header is written in.
    pub format: HeaderFormat,
    /// PRG ROM size in bytes.
    pub prg_rom_size: u32,
    /// CHR ROM size in bytes.
    pub chr_rom_size: u32,
    /// Mapper number: sixteen bits in NES 2.0, eight in iNES.
    pub mapper: u16,
    /// Submapper number; always zero in iNES.
    pub submapper: u8,
    /// Whether a 512-byte trainer precedes the PRG ROM.
    pub has_trainer: bool,
    /// PRG RAM size, in the shape of the header's format.
    pub prg_ram_size: RamSize,
    /// CHR RAM size, in the shape of the header's format.
    pub chr_ram_size: RamSize,
    /// Byte 6 as read.
    pub flags_6: Flags6,
    /// Byte 7 as read.
    pub flags_7: Flags7,
    /// Byte 9 as read; meaningful in NES 2.0.
    pub flags_9: Flags9Nes2,
    /// Byte 10 as read; meaningful in NES 2.0.
    pub flags_10: Flags10Nes2,
    /// Byte 11 as read; meaningful in NES 2.0.
    pub flags_11: Flags11Nes2,
    /// Byte 12 as read; meaningful in NES 2.0.
    pub flags_12: Flags12Nes2,
    /// Byte 13, read under the console type of byte 7; meaningful in NES 2.0.
    pub flags_13: Flags13Nes2,
}

/// The buffer starts with the NES signature.
pub open spec fn has_magic(bytes: Seq<u8>) -> bool {
    &&& bytes.len() >= 4
    &&& bytes[0] == NES_MAGIC[0]
    &&& bytes[1] == NES_MAGIC[1]
    &&& bytes[2] == NES_MAGIC[2]
    &&& bytes[3] == NES_MAGIC[3]
}

/// The format selector, bits 2 and 3 of byte 7, reads binary `10`.
pub open spec fn selects_nes2(bytes: Seq<u8>) -> bool {
    (bytes[7] / 4) % 4 == 2
}

/// Bytes 12 to 15 are not all zero: a sign that an old tool wrote over the
/// upper header bytes of an iNES image.
pub open spec fn has_trailing_junk(bytes: Seq<u8>) -> bool {
    bytes[12] != 0 || bytes[13] != 0 || bytes[14] != 0 || bytes[15] != 0
}

impl InesHeader {
    /// The derived fields agree with the flag bytes beside them: the format
    /// with the selector in byte 7, the trainer flag with byte 6, byte 13
    /// with the console type, and the RAM sizes have the shape of the format.
    /// An iNES header has no submapper.
    pub open spec fn wf(&self) -> bool {
        &&& self.format == HeaderFormat::Nes2 <==> self.flags_7.format() == 2
        &&& self.has_trainer == self.flags_6.trainer()
        &&& self.flags_13 == Flags13Nes2::spec_from_bits(
            self.flags_13.spec_into_bits(),
            self.flags_7,
        )
        &&& self.prg_ram_size is Nes2 <==> self.format == HeaderFormat::Nes2
        &&& self.chr_ram_size is Nes2 <==> self.format == HeaderFormat::Nes2
        &&& self.format == HeaderFormat::INes ==> self.submapper == 0
    }

    /// The header that sixteen or more bytes spell in NES 2.0.
    pub open spec fn nes2(bytes: Seq<u8>) -> InesHeader {
        InesHeader {
            format: HeaderFormat::Nes2,
            prg_rom_size: (((bytes[9] % 16) * 256 + bytes[4]) * 16384) as u32,
            chr_rom_size: (((bytes[9] / 16) * 256 + bytes[5]) * 8192) as u32,
            mapper: ((bytes[8] / 16) * 4096 + (bytes[7] / 16) * 256 + (bytes[6] / 16) * 16) as u16,
            submapper: bytes[8] % 16,
            has_trainer: (bytes[6] / 4) % 2 == 1,
            prg_ram_size: RamSize::Nes2 {
                ram: shifted_size(bytes[10] % 16) as u32,
                nvram: shifted_size(bytes[10] / 16) as u32,
            },
            chr_ram_size: RamSize::Nes2 {
                ram: shifted_size(bytes[11] % 16) as u32,
                nvram: shifted_size(bytes[11] / 16) as u32,
            },
            flags_6: Flags6(bytes[6]),
            flags_7: Flags7(bytes[7]),
            flags_9: Flags9Nes2(bytes[9]),
            flags_10: Flags10Nes2(bytes[10]),
            flags_11: Flags11Nes2(bytes[11]),
            flags_12: Flags12Nes2(bytes[12]),
            flags_13: Flags13Nes2::spec_from_bits(bytes[13], Flags7(bytes[7])),
        }
    }

    /// The header that sixteen or more bytes spell in iNES. Where bytes 12 to
    /// 15 hold anything, byte 7 is not trusted and the mapper number is the
    /// low nibble alone.
    pub open spec fn ines(bytes: Seq<u8>) -> InesHeader {
        InesHeader {
            format: HeaderFormat::INes,
            prg_rom_size: (bytes[4] * 16384) as u32,
            chr_rom_size: (bytes[5] * 8192) as u32,
            mapper: if has_trailing_junk(bytes) {
                (bytes[6] / 16) as u16
            } else {
                ((bytes[7] / 16) * 16 + bytes[6] / 16) as u16
            },
            submapper: 0,
            has_trainer: (bytes[6] / 4) % 2 == 1,
            prg_ram_size: RamSize::Ines(
                if bytes[8] == 0 {
                    8192u32
                } else {
                    (bytes[8] * 8192) as u32
                },
            ),
            chr_ram_size: RamSize::Ines(
                if bytes[5] == 0 {
                    8192u32
                } else {
                    0u32
                },
            ),
            flags_6: Flags6(bytes[6]),
            flags_7: Flags7(bytes[7]),
            flags_9: Flags9Nes2(bytes[9]),
            flags_10: Flags10Nes2(bytes[10]),
            flags_11: Flags11Nes2(bytes[11]),
            flags_12: Flags12Nes2(bytes[12]),
            flags_13: Flags13Nes2::spec_from_bits(bytes[13], Flags7(bytes[7])),
        }
    }

    /// What decoding a buffer gives: an error for a short buffer or a wrong
    /// signature, else the header in the format that byte 7 selects.
    pub open spec fn decoded(bytes: Seq<u8>) -> Result<InesHeader, HeaderParseError> {
        if bytes.len() < 16 {
            Err(HeaderParseError::TooShort)
        } else if !has_magic(bytes) {
            Err(HeaderParseError::InvalidMagic)
        } else if selects_nes2(bytes) {
            Ok(Self::nes2(bytes))
        } else {
            Ok(Self::ines(bytes))
        }
    }

    /// Decodes the header at the start of `bytes`.
    ///
    /// Fails with `TooShort` on fewer than 16 bytes, and with `InvalidMagic`
    /// where 16 bytes are there but do not start with the signature. Every
    /// other buffer decodes, as NES 2.0 where the format selector reads
    /// binary `10` and as iNES otherwise.
    pub fn from_bytes(bytes: &[u8]) -> (result: Result<Self, HeaderParseError>)
        ensures
            result == Self::decoded(bytes@),
            bytes@.len() < 16 ==> result == Err::<Self, _>(HeaderParseError::TooShort),
            bytes@.len() >= 16 && !has_magic(bytes@) ==> result == Err::<Self, _>(
                HeaderParseError::InvalidMagic,
            ),
            result is Ok <==> bytes@.len() >= 16 && has_magic(bytes@),
            result matches Ok(header) ==> header.wf(),
            result matches Ok(header) ==> (header.format == HeaderFormat::Nes2 <==> selects_nes2(
                bytes@,
            )),
    {
        if bytes.len() < 16 {
            return Err(HeaderParseError::TooShort);
        }
        if bytes[0] != NES_MAGIC[0] || bytes[1] != NES_MAGIC[1] || bytes[2] != NES_MAGIC[2]
            || bytes[3] != NES_MAGIC[3] {
            return Err(HeaderParseError::InvalidMagic);
        }
        let flags_6 = Flags6::from_bits(bytes[6]);
        let flags_7 = Flags7::from_bits(bytes[7]);
        let flags_8 = Flags8Nes2::from_bits(bytes[8]);
        let flags_9 = Flags9Nes2::from_bits(bytes[9]);
        let flags_10 = Flags10Nes2::from_bits(bytes[10]);
        let flags_11 = Flags11Nes2::from_bits(bytes[11]);
        let flags_12 = Flags12Nes2::from_bits(bytes[12]);
        let flags_13 = Flags13Nes2::from_bits(bytes[13], flags_7);

        if flags_7.format() == 2 {
            let prg_chunks = chunk_count(flags_9.prg_rom_msb(), bytes[4]);
            let chr_chunks = chunk_count(flags_9.chr_rom_msb(), bytes[5]);
            let mapper = join_nibbles(
                flags_8.mapper_high2(),
                flags_7.mapper_high(),
                flags_6.mapper_low(),
                0,
            );
            Ok(
                InesHeader {
                    format: HeaderFormat::Nes2,
                    prg_rom_size: prg_chunks * 16 * 1024,
                    chr_rom_size: chr_chunks * 8 * 1024,
                    mapper,
                    submapper: flags_8.submapper(),
                    has_trainer: flags_6.trainer(),
                    prg_ram_size: RamSize::Nes2 {
                        ram: size_from_shift(flags_10.prg_ram_shift()),
                        nvram: size_from_shift(flags_10.prg_nvram_shift()),
                    },
                    chr_ram_size: RamSize::Nes2 {
                        ram: size_from_shift(flags_11.chr_ram_shift()),
                        nvram: size_from_shift(flags_11.chr_nvram_shift()),
                    },
                    flags_6,
                    flags_7,
                    flags_9,
                    flags_10,
                    flags_11,
                    flags_12,
                    flags_13,
                },
            )
        } else {
            let junk = bytes[12] != 0 || bytes[13] != 0 || bytes[14] != 0 || bytes[15] != 0;
            let mapper = if junk {
                flags_6.mapper_low() as u16
            } else {
                join_nibbles(0, 0, flags_7.mapper_high(), flags_6.mapper_low())
            };
            let prg_ram_size = if bytes[8] == 0 {
                8 * 1024
            } else {
                (bytes[8] as u32) * 8 * 1024
            };
            let chr_ram_size: u32 = if bytes[5] == 0 {
                8 * 1024
            } else {
                0
            };
            Ok(
                InesHeader {
                    format: HeaderFormat::INes,
                    prg_rom_size: (bytes[4] as u32) * 16 * 1024,
                    chr_rom_size: (bytes[5] as u32) * 8 * 1024,
                    mapper,
                    submapper: 0,
                    has_trainer: flags_6.trainer(),
                    prg_ram_size: RamSize::Ines(prg_ram_size),
                    chr_ram_size: RamSize::Ines(chr_ram_size),
                    flags_6,
                    flags_7,
                    flags_9,
                    flags_10,
                    flags_11,
                    flags_12,
                    flags_13,
                },
            )
        }
    }
}

/// Buffers that decode and agree on bits 2 and 3 of byte 7 decode to the same
/// format, whatever their other bytes hold: NES 2.0 where the two bits read
/// binary `10`, iNES on the three other values.
pub proof fn lemma_selector_decides_format(bytes: Seq<u8>, other: Seq<u8>)
    requires
        InesHeader::decoded(bytes) is Ok,
        InesHeader::decoded(other) is Ok,
        (bytes[7] / 4) % 4 == (other[7] / 4) % 4,
    ensures
        InesHeader::decoded(bytes)->Ok_0.format == InesHeader::decoded(other)->Ok_0.format,
        InesHeader::decoded(bytes)->Ok_0.format == HeaderFormat::Nes2 <==> (bytes[7] / 4) % 4 == 2,
        InesHeader::decoded(bytes)->Ok_0.format == HeaderFormat::INes <==> (bytes[7] / 4) % 4 != 2,
{
}

/// Decoding is a function of the buffer: two results for one buffer are equal,
/// field by field.
pub proof fn lemma_decoding_repeats(
    bytes: Seq<u8>,
    first: Result<InesHeader, HeaderParseError>,
    second: Result<InesHeader, HeaderParseError>,
)
    requires
        first == InesHeader::decoded(bytes),
        second == InesHeader::decoded(bytes),
    ensures
        first == second,
{
}

/// A twelve-bit chunk count from its high nibble and its low byte.
fn chunk_count(msb: u8, lsb: u8) -> (chunks: u32)
    requires
        msb < 16,
    ensures
        chunks == msb * 256 + lsb,
{
    assert((((msb as u32) << 8) | (lsb as u32)) == (msb as u32) * 256 + (lsb as u32))
        by (bit_vector)
        requires
            msb < 16,
    ;
    ((msb as u32) << 8) | (lsb as u32)
}

/// Four nibbles side by side, `n3` on top.
fn join_nibbles(n3: u8, n2: u8, n1: u8, n0: u8) -> (joined: u16)
    requires
        n3 < 16,
        n2 < 16,
        n1 < 16,
        n0 < 16,
    ensures
        joined == n3 * 4096 + n2 * 256 + n1 * 16 + n0,
{
    assert((((n3 as u16) << 12) | ((n2 as u16) << 8) | ((n1 as u16) << 4) | (n0 as u16)) == (
    n3 as u16) * 4096 + (n2 as u16) * 256 + (n1 as u16) * 16 + (n0 as u16)) by (bit_vector)
        requires
            n3 < 16,
            n2 < 16,
            n1 < 16,
            n0 < 16,
    ;
    ((n3 as u16) << 12) | ((n2 as u16) << 8) | ((n1 as u16) << 4) | (n0 as u16)
}

} // verus!
