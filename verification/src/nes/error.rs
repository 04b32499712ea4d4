//! Why an NES image was turned down.

use crate::nes::header::HeaderParseError;
use vstd::prelude::*;
use vstd::std_specs::convert::FromSpecImpl;

verus! {

/// Why an NES image could not be taken apart.
#[derive(Debug, Clone, Copy, PartialEq, Eq)]
pub enum RomParseError {
    /// The image is shorter than the 16-byte header.
    HeaderTooShort,
    /// The image does not start with the NES signature.
    HeaderInvalidMagic,
    /// The image is shorter than the segments that its header announces.
    InvalidRomSize,
}

impl RomParseError {
    /// The error as a sentence.
    pub fn message(&self) -> (text: String)
        ensures
            text@ == match *self {
                RomParseError::HeaderTooShort => "header too short"@,
                RomParseError::HeaderInvalidMagic => "invalid NES header magic"@,
                RomParseError::InvalidRomSize => "invalid ROM size, inconsistent with header"@,
            },
    {
        match self {
            RomParseError::HeaderTooShort => "header too short".to_owned(),
            RomParseError::HeaderInvalidMagic => "invalid NES header magic".to_owned(),
            RomParseError::InvalidRomSize => {
                "invalid ROM size, inconsistent with header".to_owned()
            },
        }
    }
}

impl From<HeaderParseError> for RomParseError {
    fn from(error: HeaderParseError) -> (out: Self) {
        match error {
            HeaderParseError::TooShort => RomParseError::HeaderTooShort,
            HeaderParseError::InvalidMagic => RomParseError::HeaderInvalidMagic,
        }
    }
}

impl FromSpecImpl<HeaderParseError> for RomParseError {
    open spec fn obeys_from_spec() -> bool {
        true
    }

    open spec fn from_spec(error: HeaderParseError) -> Self {
        match error {
            HeaderParseError::TooShort => RomParseError::HeaderTooShort,
            HeaderParseError::InvalidMagic => RomParseError::HeaderInvalidMagic,
        }
    }
}

} // verus!
