//! Decoding bytes as UTF-8 text.

use vstd::prelude::*;
use vstd::utf8::*;

verus! {

/// The text that `String::from_utf8_lossy` makes of `bytes`.
pub uninterp spec fn utf8_lossy(bytes: Seq<u8>) -> Seq<char>;

/// Calls `std::str::from_utf8`: the bytes are text if and only if they are
/// valid UTF-8, and then the text is what they encode.
#[verifier::external_body]
pub(crate) fn from_utf8(bytes: &[u8]) -> (text: Option<String>)
    ensures
        text is Some <==> valid_utf8(bytes@),
        text matches Some(text) ==> text@ == decode_utf8(bytes@),
{
    match std::str::from_utf8(bytes) {
        Ok(text) => Some(text.to_owned()),
        Err(_) => None,
    }
}

/// Calls `String::from_utf8_lossy`, which replaces invalid sequences by U+FFFD
/// and keeps the rest: the text depends on the bytes alone, valid UTF-8 is decoded
/// as it stands, anything else leaves a replacement character, and valid UTF-8
/// behind an ASCII byte, which no invalid sequence extends over, is what the text
/// ends in. How many replacement characters stand for an invalid sequence is not
/// stated.
#[verifier::external_body]
pub(crate) fn from_utf8_lossy(bytes: &[u8]) -> (text: String)
    ensures
        text@ == utf8_lossy(bytes@),
        valid_utf8(bytes@) ==> text@ == decode_utf8(bytes@),
        !valid_utf8(bytes@) ==> text@.contains('\u{fffd}'),
        forall|i: int|
            0 < i <= bytes@.len() && bytes@[i - 1] < 0x80 && valid_utf8(#[trigger] bytes@.skip(i))
                ==> decode_utf8(bytes@.skip(i)).is_suffix_of(text@),
{
    String::from_utf8_lossy(bytes).into_owned()
}

} // verus!
