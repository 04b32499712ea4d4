//! An NES image taken apart: header, optional trainer, PRG ROM, CHR ROM and
//! whatever follows them.

use crate::nes::error::RomParseError;
use crate::nes::header::{has_magic, HeaderParseError, InesHeader, HEADER_SIZE};
use vstd::prelude::*;
use vstd::slice::{slice_subrange, slice_to_vec};

verus! {

/// Length of a trainer in bytes.
pub const TRAINER_SIZE: usize = 512;

/// The segments of an NES image, each an owned copy.
#[derive(Debug, Clone, PartialEq, Eq)]
pub struct Cartridge {
    pub ines_header: InesHeader,
    /// The 512 bytes after the header, where the header announces a trainer.
    pub trainer: Option<Vec<u8>>,
    pub prg_rom: Vec<u8>,
    pub chr_rom: Vec<u8>,
    /// What follows the CHR ROM, if anything does. Its meaning depends on the
    /// console and the mapper.
    pub misc_rom: Option<Vec<u8>>,
}

/// A cartridge with its buffers as sequences.
pub struct CartridgeView {
    pub ines_header: InesHeader,
    pub trainer: Option<Seq<u8>>,
    pub prg_rom: Seq<u8>,
    pub chr_rom: Seq<u8>,
    pub misc_rom: Option<Seq<u8>>,
}

impl View for Cartridge {
    type V = CartridgeView;

    open spec fn view(&self) -> CartridgeView {
        CartridgeView {
            ines_header: self.ines_header,
            trainer: match self.trainer {
                Some(trainer) => Some(trainer@),
                None => None,
            },
            prg_rom: self.prg_rom@,
            chr_rom: self.chr_rom@,
            misc_rom: match self.misc_rom {
                Some(rest) => Some(rest@),
                None => None,
            },
        }
    }
}

/// Offset at which the PRG ROM starts: after the header, and after the trainer
/// where byte 6 announces one.
pub open spec fn prg_start(header: InesHeader) -> int {
    if header.flags_6.trainer() {
        528
    } else {
        16
    }
}

/// Offset at which the PRG ROM ends and the CHR ROM starts.
pub open spec fn prg_end(header: InesHeader) -> int {
    prg_start(header) + header.prg_rom_size
}

/// Offset at which the CHR ROM ends.
pub open spec fn chr_end(header: InesHeader) -> int {
    prg_end(header) + header.chr_rom_size
}

impl CartridgeView {
    /// The buffers have the lengths that the header announces, a trainer is
    /// there exactly when byte 6 says so, and trailing data is never empty.
    pub open spec fn wf(self) -> bool {
        &&& self.prg_rom.len() == self.ines_header.prg_rom_size
        &&& self.chr_rom.len() == self.ines_header.chr_rom_size
        &&& self.trainer is Some <==> self.ines_header.flags_6.trainer()
        &&& self.trainer matches Some(trainer) ==> trainer.len() == 512
        &&& self.misc_rom matches Some(rest) ==> rest.len() > 0
    }

    /// The bytes of the segments from offset 16 on, in the order of the image.
    pub open spec fn body(self) -> Seq<u8> {
        (match self.trainer {
            Some(trainer) => trainer,
            None => Seq::empty(),
        }) + self.prg_rom + self.chr_rom + (match self.misc_rom {
            Some(rest) => rest,
            None => Seq::empty(),
        })
    }
}

/// Where an image is cut into segments, the segments have the lengths that
/// the header announces, their boundaries follow one another inside the
/// image, and the segments behind the first sixteen bytes are the image again.
pub proof fn lemma_segments_tile(data: Seq<u8>, header: InesHeader)
    requires
        Cartridge::segments(data, header) is Ok,
    ensures
        Cartridge::segments(data, header)->Ok_0.wf(),
        16 <= prg_start(header) <= prg_end(header) <= chr_end(header) <= data.len(),
        data == data.subrange(0, 16) + Cartridge::segments(data, header)->Ok_0.body(),
{
    let cut = Cartridge::segments(data, header)->Ok_0;
    assert(data =~= data.subrange(0, 16) + cut.body());
}

impl Cartridge {
    /// The segments that `header` cuts out of `data`, if `data` reaches to the
    /// end of the CHR ROM.
    pub open spec fn segments(data: Seq<u8>, header: InesHeader) -> Result<
        CartridgeView,
        RomParseError,
    > {
        if data.len() < chr_end(header) {
            Err(RomParseError::InvalidRomSize)
        } else {
            Ok(
                CartridgeView {
                    ines_header: header,
                    trainer: if header.flags_6.trainer() {
                        Some(data.subrange(16, 528))
                    } else {
                        None
                    },
                    prg_rom: data.subrange(prg_start(header), prg_end(header)),
                    chr_rom: data.subrange(prg_end(header), chr_end(header)),
                    misc_rom: if data.len() > chr_end(header) {
                        Some(data.subrange(chr_end(header), data.len() as int))
                    } else {
                        None
                    },
                },
            )
        }
    }

    /// What taking an image apart gives: the header's error where the header
    /// does not decode, `InvalidRomSize` where the image ends before its CHR
    /// ROM does, else the segments.
    pub open spec fn assembled(data: Seq<u8>) -> Result<CartridgeView, RomParseError> {
        match InesHeader::decoded(data) {
            Err(HeaderParseError::TooShort) => Err(RomParseError::HeaderTooShort),
            Err(HeaderParseError::InvalidMagic) => Err(RomParseError::HeaderInvalidMagic),
            Ok(header) => Self::segments(data, header),
        }
    }

    /// Takes a whole image apart.
    ///
    /// The header is decoded first and its error handed on. Then the image
    /// must reach to the end of the CHR ROM, or `InvalidRomSize` is returned.
    /// The segments lie one after another from offset 16: the trainer if
    /// there is one, the PRG ROM, the CHR ROM, and as trailing data whatever
    /// is left.
    pub fn load_rom_data(data: &[u8]) -> (result: Result<Self, RomParseError>)
        ensures
            match result {
                Ok(cartridge) => Self::assembled(data@) == Ok::<_, RomParseError>(cartridge@),
                Err(error) => Self::assembled(data@) == Err::<CartridgeView, _>(error),
            },
            result matches Ok(cartridge) ==> cartridge@.wf() && cartridge.ines_header.wf()
                && chr_end(cartridge.ines_header) <= data@.len() && data@ == data@.subrange(0, 16)
                + cartridge@.body(),
            data@.len() < 16 ==> result == Err::<Self, _>(RomParseError::HeaderTooShort),
            data@.len() >= 16 && !has_magic(data@) ==> result == Err::<Self, _>(
                RomParseError::HeaderInvalidMagic,
            ),
    {
        let header = match InesHeader::from_bytes(data) {
            Ok(header) => header,
            Err(error) => {
                return Err(RomParseError::from(error));
            },
        };
        Self::assemble(header, data)
    }

    /// Cuts the segments that a decoded header announces out of its image.
    ///
    /// Fails with `InvalidRomSize` exactly when `data` ends before the CHR
    /// ROM does.
    pub fn assemble(ines_header: InesHeader, data: &[u8]) -> (result: Result<Self, RomParseError>)
        ensures
            match result {
                Ok(cartridge) => Self::segments(data@, ines_header) == Ok::<_, RomParseError>(
                    cartridge@,
                ),
                Err(error) => Self::segments(data@, ines_header) == Err::<CartridgeView, _>(error),
            },
            result matches Ok(cartridge) ==> cartridge@.wf() && chr_end(ines_header) <= data@.len()
                && data@ == data@.subrange(0, 16) + cartridge@.body(),
    {
        proof {
            if Self::segments(data@, ines_header) is Ok {
                lemma_segments_tile(data@, ines_header);
            }
        }
        let trainer = Self::extract_trainer(data, &ines_header)?;
        let (prg_rom, chr_rom) = Self::extract_prg_chr(data, &ines_header)?;
        let misc_rom = Self::extract_misc(data, &ines_header);
        Ok(Cartridge { ines_header, trainer, prg_rom, chr_rom, misc_rom })
    }

    /// Copies the trainer out of `data`, where `header` announces one.
    ///
    /// Without the trainer flag there is none. With it, the 512 bytes from
    /// offset 16 are the trainer, and a shorter `data` is an error.
    pub fn extract_trainer(data: &[u8], header: &InesHeader) -> (result: Result<
        Option<Vec<u8>>,
        RomParseError,
    >)
        ensures
            match result {
                Ok(Some(trainer)) => header.flags_6.trainer() && data@.len() >= 528
                    && trainer@ == data@.subrange(16, 528),
                Ok(None) => !header.flags_6.trainer(),
                Err(error) => error == RomParseError::InvalidRomSize && header.flags_6.trainer()
                    && data@.len() < 528,
            },
    {
        if header.flags_6.trainer() {
            if data.len() < HEADER_SIZE + TRAINER_SIZE {
                return Err(RomParseError::InvalidRomSize);
            }
            Ok(Some(slice_to_vec(slice_subrange(data, HEADER_SIZE, HEADER_SIZE + TRAINER_SIZE))))
        } else {
            Ok(None)
        }
    }

    /// Copies the PRG ROM and the CHR ROM out of `data`.
    ///
    /// Fails with `InvalidRomSize` exactly when `data` ends before the CHR
    /// ROM does.
    pub fn extract_prg_chr(data: &[u8], header: &InesHeader) -> (result: Result<
        (Vec<u8>, Vec<u8>),
        RomParseError,
    >)
        ensures
            match result {
                Ok((prg_rom, chr_rom)) => data@.len() >= chr_end(*header) && prg_rom@
                    == data@.subrange(prg_start(*header), prg_end(*header)) && chr_rom@
                    == data@.subrange(prg_end(*header), chr_end(*header)),
                Err(error) => error == RomParseError::InvalidRomSize && data@.len() < chr_end(
                    *header,
                ),
            },
    {
        let trainer_offset: u64 = if header.flags_6.trainer() {
            512
        } else {
            0
        };
        let prg_start: u64 = 16 + trainer_offset;
        let prg_end: u64 = prg_start + (header.prg_rom_size as u64);
        let chr_end: u64 = prg_end + (header.chr_rom_size as u64);
        if (data.len() as u64) < chr_end {
            return Err(RomParseError::InvalidRomSize);
        }
        let prg_rom = slice_to_vec(slice_subrange(data, prg_start as usize, prg_end as usize));
        let chr_rom = slice_to_vec(slice_subrange(data, prg_end as usize, chr_end as usize));
        Ok((prg_rom, chr_rom))
    }

    /// Copies what follows the CHR ROM out of `data`: `None` where `data` ends
    /// with the CHR ROM or before, else every byte after it.
    pub fn extract_misc(data: &[u8], header: &InesHeader) -> (rest: Option<Vec<u8>>)
        ensures
            match rest {
                Some(rest) => data@.len() > chr_end(*header) && rest@ == data@.subrange(
                    chr_end(*header),
                    data@.len() as int,
                ),
                None => data@.len() <= chr_end(*header),
            },
    {
        let trainer_offset: u64 = if header.flags_6.trainer() {
            512
        } else {
            0
        };
        let chr_end: u64 = 16 + trainer_offset + (header.prg_rom_size as u64) + (
        header.chr_rom_size as u64);
        if (data.len() as u64) > chr_end {
            Some(slice_to_vec(slice_subrange(data, chr_end as usize, data.len())))
        } else {
            None
        }
    }
}

} // verus!
