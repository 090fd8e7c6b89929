//! Conversions of text that the standard library makes.

use vstd::prelude::*;

verus! {

/// What `String::from_utf8_lossy` makes of `bytes`.
pub uninterp spec fn utf8_lossy(bytes: Seq<u8>) -> Seq<char>;

/// What `{:?}` writes for the text `text`.
pub uninterp spec fn debug_text(text: Seq<char>) -> Seq<char>;

/// `String::from_utf8_lossy`. Bytes that are valid UTF-8 are decoded; of others the
/// invalid parts are replaced, so that the result holds a replacement character.
#[verifier::external_body]
pub(crate) fn from_utf8_lossy(bytes: &[u8]) -> (res: String)
    ensures
        res@ == utf8_lossy(bytes@),
        vstd::utf8::valid_utf8(bytes@) ==> res@ == vstd::utf8::decode_utf8(bytes@),
        !vstd::utf8::valid_utf8(bytes@) ==> res@.contains('\u{FFFD}'),
{
    String::from_utf8_lossy(bytes).into_owned()
}

/// The `Debug` formatting of a `str`: quoted and escaped.
#[verifier::external_body]
pub(crate) fn format_debug(text: &str) -> (res: String)
    ensures
        res@ == debug_text(text@),
{
    format!("{:?}", text)
}

/// Whether `text` is `expected`.
pub(crate) fn text_is(text: &String, expected: &str) -> (res: bool)
    ensures
        res == (text@ == expected@),
{
    *text == expected.to_owned()
}

} // verus!
