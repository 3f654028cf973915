//! Quoted strings.

use vstd::prelude::*;

verus! {

/// `text` between double quotes, with the escapes that make it readable.
pub uninterp spec fn quoted(text: Seq<char>) -> Seq<char>;

/// Formats `text` with its implementation of [`std::fmt::Debug`].
///
/// Believed of it: the result depends on the text alone. Which characters are escaped, and how, is
/// left to the standard library.
#[verifier::external_body]
pub(crate) fn quote(text: &str) -> (quote: String)
    ensures
        quote@ == quoted(text@),
{
    format!("{text:?}")
}

} // verus!
