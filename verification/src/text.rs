//! Trusted wrappers around std's text conversions: lossy UTF-8
//! decoding of extracted byte fields, and the one-character string a
//! tag byte maps to.

use vstd::prelude::*;

verus! {

/// The characters that lossy UTF-8 decoding yields for a byte
/// sequence. The result depends on the bytes alone.
pub uninterp spec fn lossy_utf8(bytes: Seq<u8>) -> Seq<char>;

/// Relies on String::from_utf8_lossy: invalid sequences are replaced,
/// never an error, and the result is a function of the bytes alone; a
/// buffer of ASCII bytes is valid UTF-8 and decodes to those same
/// characters, one per byte.
#[verifier::external_body]
pub fn from_utf8_lossy(bytes: &[u8]) -> (r: String)
    ensures
        r@ == lossy_utf8(bytes@),
        (forall|i: int| 0 <= i < bytes@.len() ==> #[trigger] bytes@[i] < 0x80) ==> r@
            == bytes@.map_values(|b: u8| b as char),
{
    String::from_utf8_lossy(bytes).to_string()
}

/// Relies on String::from for char: the string holding exactly that
/// one character.
#[verifier::external_body]
pub fn char_to_string(c: char) -> (r: String)
    ensures
        r@ == seq![c],
{
    String::from(c)
}

} // verus!
