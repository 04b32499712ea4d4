//! Text out of header bytes, through the standard library's string functions.

use vstd::prelude::*;

verus! {

/// The text that `String::from_utf8_lossy` makes of a byte sequence: its
/// UTF-8 decoding, with U+FFFD in place of each malformed stretch.
pub uninterp spec fn lossy_text(bytes: Seq<u8>) -> Seq<char>;

/// The text that `str::trim` leaves of a text: the same without the white
/// space at its two ends, white space being what Unicode's `White_Space`
/// property says.
pub uninterp spec fn trimmed_text(text: Seq<char>) -> Seq<char>;

/// `String::from_utf8_lossy`, with its result as an owned string. The
/// result is a function of the bytes alone; the contract gives it its name.
#[verifier::external_body]
pub(crate) fn decode_lossy(bytes: &[u8]) -> (text: String)
    ensures
        text@ == lossy_text(bytes@),
{
    String::from_utf8_lossy(bytes).into_owned()
}

/// `str::trim`. The result is a function of the text alone; the contract
/// gives it its name.
#[verifier::external_body]
pub(crate) fn trim(text: &str) -> (trimmed: &str)
    ensures
        trimmed@ == trimmed_text(text@),
{
    text.trim()
}

/// `String::push`: appends `c` to the end of `text`.
#[verifier::external_body]
pub(crate) fn push_char(text: &mut String, c: char)
    ensures
        final(text)@ == old(text)@.push(c),
{
    text.push(c)
}

} // verus!
