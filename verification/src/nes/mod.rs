//! NES and Famicom cartridge images, in the iNES and NES 2.0 formats.

pub mod cartridge;
pub mod error;
pub mod flags;
pub mod header;
