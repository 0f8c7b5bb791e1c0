//! The short strings that key events carry, from the crate `smol_str`.
use smol_str::SmolStr;
use vstd::prelude::*;

verus! {

#[verifier::external_type_specification]
#[verifier::external_body]
pub struct ExSmolStr(smol_str::SmolStr);

/// The characters that a `SmolStr` holds, in order.
pub uninterp spec fn smol_str_text(s: SmolStr) -> Seq<char>;

/// Calls `SmolStr::from_iter` on the characters, one by one. The string that comes back
/// holds exactly these characters, in this order.
#[verifier::external_body]
pub(crate) fn smol_str_from_chars(chars: &Vec<char>) -> (res: SmolStr)
    ensures
        smol_str_text(res) == chars@,
{
    SmolStr::from_iter(chars.iter().copied())
}

/// Calls `SmolStr::as_str`, which lends out the text that the string holds.
#[verifier::external_body]
pub(crate) fn smol_str_as_str(s: &SmolStr) -> (res: &str)
    ensures
        res@ == smol_str_text(*s),
{
    s.as_str()
}

/// `SmolStr::clone` gives a copy that holds the same text.
pub assume_specification[ <SmolStr as Clone>::clone ](s: &SmolStr) -> (res: SmolStr)
    ensures
        smol_str_text(res) == smol_str_text(*s),
;

/// The text of an optional short string.
pub open spec fn optional_text(s: Option<SmolStr>) -> Option<Seq<char>> {
    match s {
        Some(s) => Some(smol_str_text(s)),
        None => None,
    }
}

} // verus!
