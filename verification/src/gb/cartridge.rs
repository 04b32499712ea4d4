//! A Game Boy image taken apart: the header and the ROM body after it.

use crate::gb::error::RomParseError;
use crate::gb::header::{GbHeader, GbHeaderView, HEADER_END};
use vstd::prelude::*;
use vstd::slice::{slice_subrange, slice_to_vec};

verus! {

/// Size of a ROM bank in bytes. An image is a whole number of banks.
pub const BANK_SIZE: usize = 16 * 1024;

/// A Game Boy cartridge: its header and an owned copy of the ROM body.
#[derive(Debug, Clone, PartialEq, Eq)]
pub struct Cartridge {
    pub gb_header: GbHeader,
    /// Every byte of the image from offset 0x150 on.
    pub rom_data: Vec<u8>,
}

/// A cartridge with its header's view and its body as a sequence.
pub struct CartridgeView {
    pub gb_header: GbHeaderView,
    pub rom_data: Seq<u8>,
}

impl View for Cartridge {
    type V = CartridgeView;

    open spec fn view(&self) -> CartridgeView {
        CartridgeView { gb_header: self.gb_header@, rom_data: self.rom_data@ }
    }
}

impl CartridgeView {
    /// Header region and body together fill a whole number of banks.
    pub open spec fn wf(self) -> bool {
        (0x150 + self.rom_data.len()) % 16384 == 0
    }
}

impl Cartridge {
    /// The cartridge that a decoded header and the image make: an error
    /// unless the image holds the header region and is a whole number of
    /// banks long, else the header with every byte after the header region.
    pub open spec fn assembled_with(header: GbHeaderView, bytes: Seq<u8>) -> Result<
        CartridgeView,
        RomParseError,
    > {
        if bytes.len() < 0x150 || bytes.len() % 16384 != 0 {
            Err(RomParseError::InvalidRomSize)
        } else {
            Ok(
                CartridgeView {
                    gb_header: header,
                    rom_data: bytes.subrange(0x150, bytes.len() as int),
                },
            )
        }
    }

    /// What taking an image apart gives: the header's error where the header
    /// does not decode, else what `assembled_with` makes of header and image.
    pub open spec fn assembled(bytes: Seq<u8>) -> Result<CartridgeView, RomParseError> {
        match GbHeader::decoded(bytes) {
            Err(error) => Err(error),
            Ok(header) => Self::assembled_with(header, bytes),
        }
    }

    /// Takes a whole image apart.
    ///
    /// The header is decoded first and its error handed on. Then the length
    /// of the image must be a multiple of 16 KiB, or `InvalidRomSize` is
    /// returned. The ROM size that the header states plays no part in this.
    pub fn load_rom_data(bytes: &[u8]) -> (result: Result<Self, RomParseError>)
        ensures
            match result {
                Ok(cartridge) => Self::assembled(bytes@) == Ok::<_, RomParseError>(cartridge@),
                Err(error) => Self::assembled(bytes@) == Err::<CartridgeView, _>(error),
            },
            result matches Ok(cartridge) ==> cartridge@.wf() && cartridge.gb_header@.wf() && bytes@
                == bytes@.subrange(0, 0x150) + cartridge.rom_data@,
            bytes@.len() < 0x150 ==> result == Err::<Self, _>(RomParseError::HeaderTooShort),
    {
        let header = GbHeader::from_bytes(bytes)?;
        Self::assemble(header, bytes)
    }

    /// Joins a decoded header with the ROM body of its image.
    ///
    /// Fails with `InvalidRomSize` exactly when `bytes` is shorter than the
    /// header region or not a multiple of 16 KiB long.
    pub fn assemble(gb_header: GbHeader, bytes: &[u8]) -> (result: Result<Self, RomParseError>)
        ensures
            match result {
                Ok(cartridge) => Self::assembled_with(gb_header@, bytes@) == Ok::<
                    _,
                    RomParseError,
                >(cartridge@),
                Err(error) => Self::assembled_with(gb_header@, bytes@) == Err::<CartridgeView, _>(
                    error,
                ),
            },
            result matches Ok(cartridge) ==> cartridge.gb_header == gb_header && cartridge@.wf(),
    {
        if bytes.len() < HEADER_END || bytes.len() % BANK_SIZE != 0 {
            return Err(RomParseError::InvalidRomSize);
        }
        let rom_data = slice_to_vec(slice_subrange(bytes, HEADER_END, bytes.len()));
        Ok(Cartridge { gb_header, rom_data })
    }
}

} // verus!
