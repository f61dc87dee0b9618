//! Text functions of the standard library whose results are taken as given.

use vstd::prelude::*;
use vstd::utf8::{decode_utf8, valid_utf8};

verus! {

/// The lower-case form of a text, by Unicode's rules.
pub uninterp spec fn lowercase_of(text: Seq<char>) -> Seq<char>;

/// The upper-case form of a text, by Unicode's rules.
pub uninterp spec fn uppercase_of(text: Seq<char>) -> Seq<char>;

/// A text without leading and trailing white space, as Unicode defines it.
pub uninterp spec fn trim_of(text: Seq<char>) -> Seq<char>;

/// `str::to_lowercase`: a function of the text alone, named [`lowercase_of`].
#[verifier::external_body]
pub(crate) fn lowercase(text: &str) -> (r: String)
    ensures
        r@ == lowercase_of(text@),
{
    text.to_lowercase()
}

/// `str::to_uppercase`: a function of the text alone, named [`uppercase_of`].
#[verifier::external_body]
pub(crate) fn uppercase(text: &str) -> (r: String)
    ensures
        r@ == uppercase_of(text@),
{
    text.to_uppercase()
}

/// `str::trim`: a function of the text alone, named [`trim_of`].
#[verifier::external_body]
pub(crate) fn trimmed(text: &str) -> (r: &str)
    ensures
        r@ == trim_of(text@),
{
    text.trim()
}

/// `std::str::from_utf8`: succeeds exactly on valid UTF-8, and then gives the text
/// that the bytes encode.
#[verifier::external_body]
pub(crate) fn utf8_text(bytes: &[u8]) -> (r: Option<&str>)
    ensures
        r is Some <==> valid_utf8(bytes@),
        r is Some ==> r->0@ == decode_utf8(bytes@),
{
    std::str::from_utf8(bytes).ok()
}

} // verus!
