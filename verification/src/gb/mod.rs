//! Game Boy and Game Boy Color cartridge images.

pub mod cartridge;
pub mod error;
pub mod header;
