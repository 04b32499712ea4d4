//! Fixed-width sub-fields packed into a single byte.
//!
//! A field is named by the position of its lowest bit (`offset`) and by the
//! number of bits it spans (`width`). Its value is the unsigned integer that
//! those bits spell, right-aligned.

use vstd::arithmetic::div_mod::{lemma_div_of0, lemma_small_mod};
use vstd::arithmetic::power2::{lemma2_to64, lemma_pow2_pos, pow2};
use vstd::prelude::*;

verus! {

/// A field lies inside a byte: it has at least one bit and ends at bit 7 or below.
pub open spec fn in_byte(offset: u32, width: u32) -> bool {
    1 <= width && offset + width <= 8
}

/// The value of the field of `byte` at `offset`, `width` bits wide.
pub open spec fn field(byte: u8, offset: u32, width: u32) -> nat {
    (byte as nat / pow2(offset as nat)) % pow2(width as nat)
}

/// The byte whose field at `offset` holds `value` and whose other bits are clear.
pub open spec fn placed(value: u8, offset: u32) -> nat {
    value as nat * pow2(offset as nat)
}

/// `byte` with its field at `offset`, `width` bits wide, holding `value` instead.
pub open spec fn with_field(byte: u8, value: u8, offset: u32, width: u32) -> int {
    byte - placed(field(byte, offset, width) as u8, offset) + placed(value, offset)
}

/// Reads the field of `byte` at `offset`, `width` bits wide.
pub fn extract(byte: u8, offset: u32, width: u32) -> (value: u8)
    requires
        in_byte(offset, width),
    ensures
        value == field(byte, offset, width),
        value < pow2(width as nat),
{
    proof {
        lemma_shift_and_mask(byte, offset, width);
        lemma_field_bound(byte, offset, width);
    }
    (byte >> offset) & (0xFFu8 >> (8 - width))
}

/// Whether `value` can be stored in a field of `width` bits.
pub fn fits(value: u8, width: u32) -> (ok: bool)
    requires
        1 <= width <= 8,
    ensures
        ok == (value < pow2(width as nat)),
{
    proof {
        lemma_mask_is_bound(value, width);
    }
    value <= (0xFFu8 >> (8 - width))
}

/// The byte that holds `value` in the field at `offset` and nothing else.
pub fn deposit(value: u8, offset: u32, width: u32) -> (byte: u8)
    requires
        in_byte(offset, width),
        value < pow2(width as nat),
    ensures
        byte == placed(value, offset),
{
    proof {
        lemma_shift_into_place(value, offset, width);
    }
    value << offset
}

/// `byte` with `value` stored in the field at `offset`, `width` bits wide.
pub fn replace(byte: u8, value: u8, offset: u32, width: u32) -> (out: u8)
    requires
        in_byte(offset, width),
        value < pow2(width as nat),
    ensures
        out == with_field(byte, value, offset, width),
{
    proof {
        lemma_splice(byte, value, offset, width);
    }
    (byte & !((0xFFu8 >> (8 - width)) << offset)) | (value << offset)
}

/// A field's value is below two to the power of its width.
pub proof fn lemma_field_bound(byte: u8, offset: u32, width: u32)
    requires
        in_byte(offset, width),
    ensures
        field(byte, offset, width) < pow2(width as nat),
        field(byte, offset, width) <= u8::MAX,
{
    lemma2_to64();
    lemma_shift_and_mask(byte, offset, width);
}

/// A field reads back the value that was stored in it.
pub proof fn lemma_read_stored(byte: u8, value: u8, offset: u32, width: u32)
    requires
        in_byte(offset, width),
        value < pow2(width as nat),
    ensures
        0 <= with_field(byte, value, offset, width) <= u8::MAX,
        field(with_field(byte, value, offset, width) as u8, offset, width) == value,
{
    let out = spliced(byte, value, offset, width);
    lemma_splice(byte, value, offset, width);
    lemma_shift_and_mask(out, offset, width);
    lemma_mask_is_bound(value, width);
    let mask = low_mask(width);
    assert((((byte & !(mask << offset)) | (value << offset)) >> offset) & mask == value)
        by (bit_vector)
        requires
            1 <= width && offset + width <= 8,
            mask == 0xFFu8 >> (8 - width) as u32,
            value <= mask,
    ;
}

/// Storing into one field leaves every field that shares no bit with it as it was.
pub proof fn lemma_store_keeps_others(
    byte: u8,
    value: u8,
    offset: u32,
    width: u32,
    other_offset: u32,
    other_width: u32,
)
    requires
        in_byte(offset, width),
        in_byte(other_offset, other_width),
        value < pow2(width as nat),
        other_offset + other_width <= offset || offset + width <= other_offset,
    ensures
        field(with_field(byte, value, offset, width) as u8, other_offset, other_width) == field(
            byte,
            other_offset,
            other_width,
        ),
{
    let out = spliced(byte, value, offset, width);
    lemma_splice(byte, value, offset, width);
    lemma_shift_and_mask(out, other_offset, other_width);
    lemma_shift_and_mask(byte, other_offset, other_width);
    lemma_mask_is_bound(value, width);
    let mask = low_mask(width);
    let other_mask = low_mask(other_width);
    assert((((byte & !(mask << offset)) | (value << offset)) >> other_offset) & other_mask == (byte
        >> other_offset) & other_mask) by (bit_vector)
        requires
            1 <= width && offset + width <= 8,
            1 <= other_width && other_offset + other_width <= 8,
            other_offset + other_width <= offset || offset + width <= other_offset,
            mask == 0xFFu8 >> (8 - width) as u32,
            other_mask == 0xFFu8 >> (8 - other_width) as u32,
            value <= mask,
    ;
}

/// A deposited value stands alone in its byte: its own field reads it back, and
/// every field that shares no bit with it reads zero.
pub proof fn lemma_placed_alone(
    value: u8,
    offset: u32,
    width: u32,
    other_offset: u32,
    other_width: u32,
)
    requires
        in_byte(offset, width),
        in_byte(other_offset, other_width),
        value < pow2(width as nat),
        other_offset + other_width <= offset || offset + width <= other_offset,
    ensures
        0 <= placed(value, offset) <= u8::MAX,
        field(placed(value, offset) as u8, offset, width) == value,
        field(placed(value, offset) as u8, other_offset, other_width) == 0,
{
    lemma_zero_field(offset, width);
    lemma_zero_field(other_offset, other_width);
    lemma_read_stored(0, value, offset, width);
    lemma_store_keeps_others(0, value, offset, width, other_offset, other_width);
}

/// Every field of the zero byte is zero.
proof fn lemma_zero_field(offset: u32, width: u32)
    ensures
        field(0, offset, width) == 0,
        placed(0, offset) == 0,
{
    lemma_pow2_pos(offset as nat);
    lemma_pow2_pos(width as nat);
    lemma_div_of0(pow2(offset as nat) as int);
    lemma_small_mod(0, pow2(width as nat));
}

/// Powers of two up to the ninth, as shifts of one.
proof fn lemma_shift_of_one(k: u32)
    requires
        k <= 8,
    ensures
        (1u16 << k) == pow2(k as nat),
{
    lemma2_to64();
    assert(k <= 8 ==> (1u16 << k) == (if k == 0 {
        1u16
    } else if k == 1 {
        2u16
    } else if k == 2 {
        4u16
    } else if k == 3 {
        8u16
    } else if k == 4 {
        16u16
    } else if k == 5 {
        32u16
    } else if k == 6 {
        64u16
    } else if k == 7 {
        128u16
    } else {
        256u16
    })) by (bit_vector);
}

/// Shifting and masking a byte reads the quotient and remainder by powers of two.
proof fn lemma_shift_and_mask(byte: u8, offset: u32, width: u32)
    requires
        in_byte(offset, width),
    ensures
        ((byte >> offset) & (0xFFu8 >> (8 - width) as u32)) == field(byte, offset, width),
{
    lemma_shift_of_one(offset);
    lemma_shift_of_one(width);
    assert(1 <= width && offset + width <= 8 ==> ((byte >> offset) & (0xFFu8 >> (8 - width) as u32))
        as u16 == ((byte as u16) / (1u16 << offset)) % (1u16 << width)) by (bit_vector);
}

/// The low `width` bits set, as `extract` masks with.
spec fn low_mask(width: u32) -> u8 {
    0xFFu8 >> (8 - width) as u32
}

/// `byte` with the field cleared and `value` shifted into its place.
spec fn spliced(byte: u8, value: u8, offset: u32, width: u32) -> u8 {
    (byte & !(low_mask(width) << offset)) | (value << offset)
}

/// A value fits a field exactly when it does not exceed the field's mask.
proof fn lemma_mask_is_bound(value: u8, width: u32)
    requires
        1 <= width <= 8,
    ensures
        value <= low_mask(width) <==> value < pow2(width as nat),
{
    lemma_shift_of_one(width);
    assert(1 <= width <= 8 ==> (value <= (0xFFu8 >> (8 - width) as u32) <==> (value as u16) < (1u16
        << width))) by (bit_vector);
}

/// Shifting a fitting value into place multiplies it by the weight of the offset.
proof fn lemma_shift_into_place(value: u8, offset: u32, width: u32)
    requires
        in_byte(offset, width),
        value < pow2(width as nat),
    ensures
        (value << offset) == placed(value, offset),
{
    lemma_shift_of_one(offset);
    lemma_mask_is_bound(value, width);
    let weight = 1u16 << offset;
    let mask = low_mask(width);
    assert((value << offset) as u16 == (value as u16) * weight) by (bit_vector)
        requires
            1 <= width && offset + width <= 8,
            mask == 0xFFu8 >> (8 - width) as u32,
            value <= mask,
            weight == 1u16 << offset,
    ;
}

/// Clearing a field and shifting a value in takes the old field's share out of
/// the byte and puts the new one in.
proof fn lemma_splice(byte: u8, value: u8, offset: u32, width: u32)
    requires
        in_byte(offset, width),
        value < pow2(width as nat),
    ensures
        spliced(byte, value, offset, width) == with_field(byte, value, offset, width),
{
    let mask = low_mask(width);
    let old_value = (byte >> offset) & mask;
    lemma_shift_and_mask(byte, offset, width);
    lemma_mask_is_bound(value, width);
    lemma_mask_is_bound(old_value, width);
    lemma_shift_into_place(value, offset, width);
    assert(old_value <= mask) by (bit_vector)
        requires
            old_value == (byte >> offset) & mask,
    ;
    lemma_shift_into_place(old_value, offset, width);
    assert(((byte & !(mask << offset)) | (value << offset)) == byte - (old_value << offset) + (value
        << offset)) by (bit_vector)
        requires
            1 <= width && offset + width <= 8,
            mask == 0xFFu8 >> (8 - width) as u32,
            value <= mask,
            old_value == (byte >> offset) & mask,
    ;
}

} // verus!
