//! Why a Game Boy image was turned down.

use vstd::prelude::*;

verus! {

/// Why a Game Boy image could not be decoded.
#[derive(Debug, Clone, Copy, PartialEq, Eq)]
pub enum RomParseError {
    /// The image is shorter than the 0x150 bytes that end with the header.
    HeaderTooShort,
    /// Bytes 0x104 to 0x133 are not the Nintendo logo.
    InvalidLogo,
    /// Byte 0x147 names no known cartridge type.
    InvalidCartridgeType,
    /// Byte 0x14D is not the checksum of bytes 0x134 to 0x14C.
    InvalidHeaderChecksum,
    /// The image is not a whole number of 16 KiB banks.
    InvalidRomSize,
}

impl RomParseError {
    /// The error as a sentence.
    pub fn message(&self) -> (text: String)
        ensures
            text@ == match *self {
                RomParseError::HeaderTooShort => "header too short"@,
                RomParseError::InvalidLogo => "invalid Nintendo logo"@,
                RomParseError::InvalidCartridgeType => "invalid cartridge type"@,
                RomParseError::InvalidHeaderChecksum => "invalid header checksum"@,
                RomParseError::InvalidRomSize => "invalid ROM size"@,
            },
    {
        match self {
            RomParseError::HeaderTooShort => "header too short".to_owned(),
            RomParseError::InvalidLogo => "invalid Nintendo logo".to_owned(),
            RomParseError::InvalidCartridgeType => "invalid cartridge type".to_owned(),
            RomParseError::InvalidHeaderChecksum => "invalid header checksum".to_owned(),
            RomParseError::InvalidRomSize => "invalid ROM size".to_owned(),
        }
    }
}

} // verus!
