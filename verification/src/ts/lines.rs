//! How the lines and the columns of a text are counted.

use vstd::prelude::*;
use vstd::utf8;

verus! {

/// A line break ends with character `i`: it is a line feed, or a carriage return without a line
/// feed behind it.
pub open spec fn ends_line(text: Seq<char>, i: int) -> bool {
    ||| text[i] == '\n'
    ||| text[i] == '\r' && !(i + 1 < text.len() && text[i + 1] == '\n')
}

/// How many units a character takes in UTF-16.
pub open spec fn utf16_len(c: char) -> nat {
    if c as u32 >= 0x10000 {
        2
    } else {
        1
    }
}

/// The line and the column of character `n`.
///
/// Lines count from 1. Columns count from 0, in units of UTF-16. The end of the text is on its last
/// line, even behind a line break, and on line 0 if there are no characters.
pub open spec fn char_position(text: Seq<char>, n: nat) -> (nat, nat)
    decreases n,
{
    if n == 0 {
        (if text.len() == 0 { 0 } else { 1 }, 0)
    } else {
        let (line, column) = char_position(text, (n - 1) as nat);
        if n < text.len() && ends_line(text, n - 1) {
            (line + 1, 0)
        } else {
            (line, column + utf16_len(text[n - 1]))
        }
    }
}

/// How many characters start before byte `offset` in UTF-8.
pub open spec fn chars_before(text: Seq<char>, offset: int) -> nat
    decreases text.len(),
{
    if text.len() == 0 || offset <= 0 {
        0
    } else {
        1 + chars_before(
            text.drop_first(),
            offset - utf8::encode_scalar(text[0] as u32).len(),
        )
    }
}

/// The one position is on an earlier line, or further left on the same line.
pub open spec fn is_before(left: (nat, nat), right: (nat, nat)) -> bool {
    left.0 < right.0 || left.0 == right.0 && left.1 < right.1
}

/// Later characters have later positions.
pub proof fn law_positions_follow_the_text(text: Seq<char>, m: nat, n: nat)
    requires
        m < n <= text.len(),
    ensures
        is_before(char_position(text, m), char_position(text, n)),
    decreases n,
{
    if m < n - 1 {
        law_positions_follow_the_text(text, m, (n - 1) as nat);
    }
}

/// No more characters start before a byte than there are.
proof fn lemma_chars_before_bounded(text: Seq<char>, offset: int)
    ensures
        chars_before(text, offset) <= text.len(),
    decreases text.len(),
{
    if text.len() > 0 && offset > 0 {
        lemma_chars_before_bounded(
            text.drop_first(),
            offset - utf8::encode_scalar(text[0] as u32).len(),
        );
    }
}

/// Where a character starts, fewer characters have started than further on.
pub(crate) proof fn lemma_chars_before_increases(text: Seq<char>, low: int, high: int)
    requires
        utf8::is_char_boundary(utf8::encode_utf8(text), low),
        low < high <= utf8::encode_utf8(text).len(),
    ensures
        chars_before(text, low) < chars_before(text, high) <= text.len(),
    decreases text.len(),
{
    let bytes = utf8::encode_utf8(text);
    utf8::encode_utf8_valid_utf8(text);
    lemma_chars_before_bounded(text, high);
    assert(low >= 0);
    if low > 0 {
        let first = utf8::encode_scalar(text[0] as u32).len();
        utf8::encode_utf8_first_scalar(text);
        assert(utf8::pop_first_scalar(bytes) =~= utf8::encode_utf8(text.drop_first()));
        lemma_chars_before_increases(text.drop_first(), low - first, high - first);
    }
}

} // verus!
