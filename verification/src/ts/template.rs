//! The template literals that the parser may not survive.

use vstd::prelude::*;

verus! {

/// `c` is a hexadecimal digit.
pub open spec fn is_hex(c: char) -> bool {
    '0' <= c <= '9' || 'a' <= c <= 'f' || 'A' <= c <= 'F'
}

/// The value of a hexadecimal digit.
pub open spec fn hex_digit(c: char) -> nat {
    if c <= '9' {
        (c as u32 - '0' as u32) as nat
    } else if c <= 'F' {
        (c as u32 - 'A' as u32 + 10) as nat
    } else {
        (c as u32 - 'a' as u32 + 10) as nat
    }
}

/// The number that hexadecimal digits stand for.
pub open spec fn hex_value(digits: Seq<char>) -> nat
    decreases digits.len(),
{
    if digits.len() == 0 {
        0
    } else {
        16 * hex_value(digits.drop_last()) + hex_digit(digits.last())
    }
}

/// The number between two braces is one of a character, or of half a pair of UTF-16 in at most 6
/// digits.
pub open spec fn is_braced(text: Seq<char>, open: int, close: int) -> bool {
    let value = hex_value(text.subrange(open + 1, close));
    &&& open + 1 < close < text.len()
    &&& close <= open + 256
    &&& text[open] == '{'
    &&& text[close] == '}'
    &&& forall|k: int| open < k < close ==> is_hex(#[trigger] text[k])
    &&& value <= 0x10ffff
    &&& close <= open + 7 || value < 0xd800 || 0xdfff < value
}

/// There are such braces, the first of them at `open`.
pub open spec fn is_braced_from(text: Seq<char>, open: int) -> bool {
    exists|close: int| is_braced(text, open, close)
}

/// Behind a backslash, what starts at `i` is an escape sequence that every template may have.
pub open spec fn is_allowed_escape(text: Seq<char>, i: int) -> bool {
    let c = text[i];
    if '1' <= c <= '7' {
        false
    } else if c == '0' {
        !(i + 1 < text.len() && '0' <= text[i + 1] <= '7')
    } else if c == 'x' {
        i + 2 < text.len() && is_hex(text[i + 1]) && is_hex(text[i + 2])
    } else if c == 'u' {
        ||| i + 4 < text.len() && is_hex(text[i + 1]) && is_hex(text[i + 2]) && is_hex(text[i + 3])
            && is_hex(text[i + 4])
        ||| is_braced_from(text, i + 1)
    } else {
        true
    }
}

/// How many backslashes stand directly before character `i`.
pub open spec fn backslashes_before(text: Seq<char>, i: int) -> nat
    decreases i,
{
    if 0 < i && text[i - 1] == '\\' {
        1 + backslashes_before(text, i - 1)
    } else {
        0
    }
}

/// At `i` there is a backslash that no other one escapes, with a sequence behind it that not every
/// template may have.
pub open spec fn is_bad_escape(text: Seq<char>, i: int) -> bool {
    &&& 0 <= i
    &&& i + 1 < text.len()
    &&& text[i] == '\\'
    &&& backslashes_before(text, i) % 2 == 0
    &&& !is_allowed_escape(text, i + 1)
}

/// Somewhere behind a backtick there is such a sequence. An example is `` `\1` ``.
pub open spec fn has_bad_template_escape(text: Seq<char>) -> bool {
    exists|tick: int, i: int|
        0 <= tick < i && #[trigger] text[tick] == '`' && #[trigger] is_bad_escape(text, i)
}

fn is_hex_at(text: &Vec<char>, i: usize) -> (hex: bool)
    requires
        i < text.len(),
    ensures
        hex == is_hex(text@[i as int]),
{
    let c: char = text[i];
    ('0' <= c && c <= '9') || ('a' <= c && c <= 'f') || ('A' <= c && c <= 'F')
}

fn hex_digit_exec(c: char) -> (digit: u32)
    requires
        is_hex(c),
    ensures
        digit == hex_digit(c),
        digit < 16,
{
    if c <= '9' {
        c as u32 - '0' as u32
    } else if c <= 'F' {
        c as u32 - 'A' as u32 + 10
    } else {
        c as u32 - 'a' as u32 + 10
    }
}

fn is_braced_at(text: &Vec<char>, open: usize) -> (braced: bool)
    requires
        open <= text.len(),
    ensures
        braced == is_braced_from(text@, open as int),
{
    if open == text.len() || text[open] != '{' {
        return false;
    }
    let mut close: usize = open + 1;
    let mut value: u32 = 0;
    assert(text@.subrange(open + 1, close as int) =~= Seq::empty());
    while close < text.len() && is_hex_at(text, close)
        invariant
            open < close <= text.len(),
            forall|k: int| open < k < close ==> is_hex(#[trigger] text@[k]),
            value <= 0x10ffff ==> value == hex_value(text@.subrange(open + 1, close as int)),
            0x10ffff < value ==> 0x10ffff < hex_value(text@.subrange(open + 1, close as int)),
        decreases text.len() - close,
    {
        proof {
            let longer = text@.subrange(open + 1, close + 1);
            assert(longer.drop_last() =~= text@.subrange(open + 1, close as int));
            assert(longer.last() == text@[close as int]);
        }
        if value <= 0x10ffff {
            value = 16 * value + hex_digit_exec(text[close]);
        }
        close += 1;
    }
    let braced = close < text.len() && text[close] == '}' && close - open > 1 && close - open <= 256
        && value <= 0x10ffff && (close - open <= 7 || value < 0xd800 || 0xdfff < value);
    assert(braced == is_braced_from(text@, open as int)) by {
        if braced {
            assert(is_braced(text@, open as int, close as int));
        }
        assert forall|end: int| is_braced(text@, open as int, end) implies braced by {
            assert(!is_hex(text@[end]));
            assert(end >= close);
            if end > close {
                assert(is_hex(text@[close as int]));
            }
        }
    }
    braced
}

fn is_allowed_escape_at(text: &Vec<char>, i: usize) -> (allowed: bool)
    requires
        i < text.len(),
    ensures
        allowed == is_allowed_escape(text@, i as int),
{
    let c: char = text[i];
    let left: usize = text.len() - i;
    if '1' <= c && c <= '7' {
        false
    } else if c == '0' {
        !(left > 1 && '0' <= text[i + 1] && text[i + 1] <= '7')
    } else if c == 'x' {
        left > 2 && is_hex_at(text, i + 1) && is_hex_at(text, i + 2)
    } else if c == 'u' {
        (left > 4 && is_hex_at(text, i + 1) && is_hex_at(text, i + 2) && is_hex_at(text, i + 3)
            && is_hex_at(text, i + 4)) || is_braced_at(text, i + 1)
    } else {
        true
    }
}

/// Whether there is such a sequence behind a backtick.
pub(crate) fn contains_bad_template_escape(text: &Vec<char>) -> (found: bool)
    ensures
        found == has_bad_template_escape(text@),
{
    let mut tick: bool = false;
    let mut escaped: bool = false;
    for i in 0..text.len()
        invariant
            tick == exists|k: int| 0 <= k < i && #[trigger] text@[k] == '`',
            escaped == (backslashes_before(text@, i as int) % 2 == 1),
            forall|k: int, j: int|
                0 <= k < j < i && #[trigger] text@[k] == '`' ==> !#[trigger] is_bad_escape(
                    text@,
                    j,
                ),
    {
        let c: char = text[i];
        if c == '\\' && !escaped && tick && text.len() - i > 1 && !is_allowed_escape_at(
            text,
            i + 1,
        ) {
            assert(is_bad_escape(text@, i as int));
            return true;
        }
        assert(text@[i as int] == c);
        if c == '`' {
            tick = true;
        }
        escaped = c == '\\' && !escaped;
    }
    false
}

} // verus!
