//! Decoders for cartridge images of two consoles: Game Boy and Game Boy Color
//! in [`gb`], NES and Famicom in [`nes`].
//!
//! Each decoder takes the bytes of a whole image. It reads the header into a
//! structured value, checks what the format lets it check, and cuts the ROM
//! segments out at the offsets that the header gives. Every function is
//! total on byte buffers: it returns a value or one of the errors of its
//! module. [`bits`] holds the bit-field arithmetic that the header bytes are
//! read with.

use vstd::prelude::*;

pub mod bits;
pub mod gb;
pub mod nes;
pub mod text;

verus! {

/// Sum of two unsigned integers that fits in 64 bits.
pub fn add(left: u64, right: u64) -> (sum: u64)
    requires
        left + right <= u64::MAX,
    ensures
        sum == left + right,
{
    left + right
}

} // verus!
