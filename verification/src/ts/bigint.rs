//! The integer literals that the parser does not survive.

use vstd::prelude::*;

verus! {

/// Behind a leading `0`, `c` says that the digits are hexadecimal, octal or binary.
pub open spec fn is_mark(c: char) -> bool {
    c == 'x' || c == 'X' || c == 'o' || c == 'O' || c == 'b' || c == 'B'
}

/// `c` is a separator or a digit of the base that `mark` stands for.
pub open spec fn is_digit_or_separator(mark: char, c: char) -> bool {
    ||| c == '_'
    ||| '0' <= c <= '1'
    ||| '2' <= c <= '7' && mark != 'b' && mark != 'B'
    ||| ('8' <= c <= '9' || 'a' <= c <= 'f' || 'A' <= c <= 'F') && (mark == 'x' || mark == 'X')
}

/// From character `i` on there is a mark of a base, a separator, and further digits, at least one,
/// and separators up to an `n` at `j`. An example is `0x_1n`.
pub open spec fn is_separated_bigint(text: Seq<char>, i: int, j: int) -> bool {
    &&& 0 <= i
    &&& i + 3 <= j < text.len()
    &&& text[i] == '0'
    &&& is_mark(text[i + 1])
    &&& text[i + 2] == '_'
    &&& text[j] == 'n'
    &&& forall|k: int| i + 2 <= k < j ==> is_digit_or_separator(text[i + 1], #[trigger] text[k])
    &&& exists|k: int| i + 2 < k < j && #[trigger] text[k] != '_'
}

/// Somewhere in the text, be it in a string, a comment or a name, there is such an integer.
pub open spec fn has_separated_bigint(text: Seq<char>) -> bool {
    exists|i: int, j: int| is_separated_bigint(text, i, j)
}

fn is_mark_exec(c: char) -> (mark: bool)
    ensures
        mark == is_mark(c),
{
    matches!(c, 'x' | 'X' | 'o' | 'O' | 'b' | 'B')
}

fn is_digit_or_separator_exec(mark: char, c: char) -> (is: bool)
    ensures
        is == is_digit_or_separator(mark, c),
{
    c == '_' || ('0' <= c && c <= '1') || ('2' <= c && c <= '7' && mark != 'b' && mark != 'B')
        || ((('8' <= c && c <= '9') || ('a' <= c && c <= 'f') || ('A' <= c && c <= 'F'))
        && (mark == 'x' || mark == 'X'))
}

/// Whether there is a separated integer from character `i` on.
fn is_separated_bigint_at(text: &Vec<char>, i: usize) -> (found: bool)
    requires
        i < text.len(),
    ensures
        found == exists|j: int| is_separated_bigint(text@, i as int, j),
{
    if text.len() - i <= 3 || text[i] != '0' || !is_mark_exec(text[i + 1]) || text[i + 2] != '_' {
        return false;
    }
    let mark = text[i + 1];
    let mut j: usize = i + 3;
    let mut digits: bool = false;
    while j < text.len() && is_digit_or_separator_exec(mark, text[j])
        invariant
            i + 3 <= j <= text.len(),
            mark == text@[i + 1],
            text@[i + 2] == '_',
            forall|k: int|
                i + 2 <= k < j ==> is_digit_or_separator(mark, #[trigger] text@[k]),
            digits == exists|k: int| i + 2 < k < j && #[trigger] text@[k] != '_',
        decreases text.len() - j,
    {
        if text[j] != '_' {
            assert(text@[j as int] != '_');
            digits = true;
        }
        j += 1;
    }
    let found = j < text.len() && text[j] == 'n' && digits;
    assert(found == exists|j: int| is_separated_bigint(text@, i as int, j)) by {
        if found {
            assert(is_separated_bigint(text@, i as int, j as int));
        }
        assert forall|end: int| is_separated_bigint(text@, i as int, end) implies found by {
            assert(!is_digit_or_separator(mark, text@[end]));
            assert(end >= j);
            if end > j {
                assert(is_digit_or_separator(mark, text@[j as int]));
            }
        }
    }
    found
}

/// Whether there is a separated integer in the text.
pub(crate) fn contains_separated_bigint(text: &Vec<char>) -> (found: bool)
    ensures
        found == has_separated_bigint(text@),
{
    for i in 0..text.len()
        invariant
            forall|k: int, j: int| 0 <= k < i ==> !is_separated_bigint(text@, k, j),
    {
        if is_separated_bigint_at(text, i) {
            return true;
        }
    }
    false
}

} // verus!
