//! Text helpers shared by the error messages.

use vstd::prelude::*;

verus! {

/// The `Debug` rendering of a string: the string between double quotes, with
/// the characters that `Debug` escapes written as escape sequences.
pub uninterp spec fn debug_quoted(s: Seq<char>) -> Seq<char>;

/// Renders a string with `format!("{:?}", ..)`, that is with `<str as Debug>::fmt`.
///
/// Trusted: the contract only names the rendering. It claims that the result
/// is a function of the characters of `s` and of nothing else.
#[verifier::external_body]
pub(crate) fn debug_quote(s: &str) -> (r: String)
    ensures
        r@ == debug_quoted(s@),
{
    format!("{:?}", s)
}

/// `prefix` followed by `rest`.
pub fn prefixed(prefix: &str, rest: &str) -> (r: String)
    ensures
        r@ == prefix@ + rest@,
{
    let mut text = String::from_str(prefix);
    text.append(rest);
    text
}

} // verus!
