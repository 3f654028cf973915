//! Painted words for terminals.

use vstd::prelude::*;

verus! {

/// `text` in bold yellow.
pub open spec fn bold_yellow_spec(text: Seq<char>) -> Seq<char> {
    "\u{1b}[1;33m"@ + text + "\u{1b}[0m"@
}

/// `text` in bold green.
pub open spec fn bold_green_spec(text: Seq<char>) -> Seq<char> {
    "\u{1b}[1;32m"@ + text + "\u{1b}[0m"@
}

/// Formats what [`ansi_term::Style::paint`] makes of `text` in the style
/// [`ansi_term::Colour::bold`] of yellow.
///
/// Believed of it: the text comes between the escape sequence for bold and yellow (codes 1 and 33)
/// and the one that resets all styles.
#[verifier::external_body]
pub(crate) fn bold_yellow(text: &str) -> (painted: String)
    ensures
        painted@ == bold_yellow_spec(text@),
{
    ansi_term::Colour::Yellow.bold().paint(text).to_string()
}

/// Formats what [`ansi_term::Style::paint`] makes of `text` in the style
/// [`ansi_term::Colour::bold`] of green.
///
/// Believed of it: the text comes between the escape sequence for bold and green (codes 1 and 32)
/// and the one that resets all styles.
#[verifier::external_body]
pub(crate) fn bold_green(text: &str) -> (painted: String)
    ensures
        painted@ == bold_green_spec(text@),
{
    ansi_term::Colour::Green.bold().paint(text).to_string()
}

} // verus!
