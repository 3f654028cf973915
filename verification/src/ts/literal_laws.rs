//! Which texts are kept from the parser, given the characters in them.

use vstd::prelude::*;

use crate::ts::bigint;
use crate::ts::span::SourceText;
use crate::ts::template;

verus! {

/// Every text is kept from the parser in which there is, anywhere, a zero, a mark of a base, a
/// separator, digits of that base and separators, at least one digit among them, and an `n`.
pub proof fn law_separated_integers_are_kept_back(
    before: Seq<char>,
    mark: char,
    digits: Seq<char>,
    after: Seq<char>,
    d: int,
    source_map: &SourceText,
    stops: bool,
)
    requires
        source_map.text@ == before + seq!['0', mark, '_'] + digits + seq!['n'] + after,
        call_ensures(SourceText::stops_parser, (source_map,), stops),
        mark == 'x' || mark == 'X' || mark == 'o' || mark == 'O' || mark == 'b' || mark == 'B',
        0 <= d < digits.len(),
        digits[d] != '_',
        forall|k: int|
            0 <= k < digits.len() ==> {
                let c = #[trigger] digits[k];
                ||| c == '_'
                ||| c == '0' || c == '1'
                ||| '2' <= c <= '7' && (mark == 'o' || mark == 'O')
                ||| ('2' <= c <= '9' || 'a' <= c <= 'f' || 'A' <= c <= 'F') && (mark == 'x' || mark
                    == 'X')
            },
    ensures
        stops,
        bigint::has_separated_bigint(source_map.text@),
{
    let text = source_map.text@;
    let i = before.len() as int;
    let j = i + 3 + digits.len();
    assert(text[i] == '0' && text[i + 1] == mark && text[i + 2] == '_' && text[j] == 'n');
    assert forall|k: int| i + 2 <= k < j implies bigint::is_digit_or_separator(
        mark,
        #[trigger] text[k],
    ) by {
        if k > i + 2 {
            assert(text[k] == digits[k - i - 3]);
        }
    }
    assert(text[i + 3 + d] == digits[d]);
    assert(bigint::is_separated_bigint(text, i, j));
}

/// No other text is kept back for its integers: where one is, there are such characters in it.
pub proof fn law_only_separated_integers_are_kept_back(text: Seq<char>)
    requires
        bigint::has_separated_bigint(text),
    ensures
        exists|i: int, j: int|
            {
                &&& 0 <= i
                &&& i + 3 < j < text.len()
                &&& #[trigger] text[i] == '0'
                &&& text[i + 1] == 'x' || text[i + 1] == 'X' || text[i + 1] == 'o' || text[i + 1]
                    == 'O' || text[i + 1] == 'b' || text[i + 1] == 'B'
                &&& text[i + 2] == '_'
                &&& #[trigger] text[j] == 'n'
                &&& exists|d: int| i + 2 < d < j && #[trigger] text[d] != '_'
                &&& forall|k: int|
                    i + 2 < k < j ==> {
                        let c = #[trigger] text[k];
                        ||| c == '_'
                        ||| c == '0' || c == '1'
                        ||| '2' <= c <= '7' && text[i + 1] != 'b' && text[i + 1] != 'B'
                        ||| ('8' <= c <= '9' || 'a' <= c <= 'f' || 'A' <= c <= 'F') && (text[i + 1]
                            == 'x' || text[i + 1] == 'X')
                    }
            },
{
    let (i, j) = choose|i: int, j: int| bigint::is_separated_bigint(text, i, j);
    assert(text[i] == '0' && text[j] == 'n');
    let d = choose|d: int| i + 2 < d < j && #[trigger] text[d] != '_';
    assert(i + 2 < d < j && text[d] != '_');
    assert forall|k: int| i + 2 < k < j implies bigint::is_digit_or_separator(
        text[i + 1],
        #[trigger] text[k],
    ) by {}
}

/// A text is kept from the parser for one of two reasons.
pub proof fn law_two_reasons_to_keep_a_text_back(source_map: &SourceText, stops: bool)
    requires
        call_ensures(SourceText::stops_parser, (source_map,), stops),
    ensures
        stops <==> bigint::has_separated_bigint(source_map.text@)
            || template::has_bad_template_escape(source_map.text@),
{
}

/// A text is kept from the parser for an escape sequence exactly if there are a backtick and, behind
/// it, an even number of backslashes, another one, and what not every template may have behind it.
pub proof fn law_escapes_behind_backticks_are_kept_back(text: Seq<char>)
    ensures
        template::has_bad_template_escape(text) <==> exists|tick: int, first: int, i: int|
            {
                &&& 0 <= tick < i
                &&& 0 <= first <= i
                &&& i + 1 < text.len()
                &&& #[trigger] text[tick] == '`'
                &&& #[trigger] text[i] == '\\'
                &&& (i - first) % 2 == 0
                &&& (#[trigger] text.subrange(first, i)) =~= Seq::new(
                    (i - first) as nat,
                    |k: int| '\\',
                )
                &&& first == 0 || text[first - 1] != '\\'
                &&& !template::is_allowed_escape(text, i + 1)
            },
{
    if template::has_bad_template_escape(text) {
        let (tick, i) = choose|tick: int, i: int|
            0 <= tick < i && #[trigger] text[tick] == '`' && #[trigger] template::is_bad_escape(
                text,
                i,
            );
        let first = i - template::backslashes_before(text, i);
        lemma_run(text, i);
        assert(text[tick] == '`' && text[i] == '\\');
        assert(text.subrange(first, i) =~= Seq::new((i - first) as nat, |k: int| '\\'));
    }
    if exists|tick: int, first: int, i: int|
        {
            &&& 0 <= tick < i
            &&& 0 <= first <= i
            &&& i + 1 < text.len()
            &&& #[trigger] text[tick] == '`'
            &&& #[trigger] text[i] == '\\'
            &&& (i - first) % 2 == 0
            &&& (#[trigger] text.subrange(first, i)) =~= Seq::new(
                (i - first) as nat,
                |k: int| '\\',
            )
            &&& first == 0 || text[first - 1] != '\\'
            &&& !template::is_allowed_escape(text, i + 1)
        } {
        let (tick, first, i) = choose|tick: int, first: int, i: int|
            {
                &&& 0 <= tick < i
                &&& 0 <= first <= i
                &&& i + 1 < text.len()
                &&& #[trigger] text[tick] == '`'
                &&& #[trigger] text[i] == '\\'
                &&& (i - first) % 2 == 0
                &&& (#[trigger] text.subrange(first, i)) =~= Seq::new(
                    (i - first) as nat,
                    |k: int| '\\',
                )
                &&& first == 0 || text[first - 1] != '\\'
                &&& !template::is_allowed_escape(text, i + 1)
            };
        assert forall|k: int| first <= k < i implies #[trigger] text[k] == '\\' by {
            assert(text.subrange(first, i)[k - first] == text[k]);
        }
        lemma_run_length(text, first, i);
        assert(template::is_bad_escape(text, i));
    }
}

/// The backslashes before a character are a run that no other backslash precedes.
proof fn lemma_run(text: Seq<char>, i: int)
    requires
        0 <= i <= text.len(),
    ensures
        template::backslashes_before(text, i) <= i,
        forall|k: int|
            i - template::backslashes_before(text, i) <= k < i ==> #[trigger] text[k] == '\\',
        template::backslashes_before(text, i) < i ==> text[i - template::backslashes_before(text, i)
            - 1] != '\\',
    decreases i,
{
    if 0 < i && text[i - 1] == '\\' {
        lemma_run(text, i - 1);
    }
}

proof fn lemma_run_length(text: Seq<char>, first: int, i: int)
    requires
        0 <= first <= i <= text.len(),
        forall|k: int| first <= k < i ==> #[trigger] text[k] == '\\',
        first == 0 || text[first - 1] != '\\',
    ensures
        template::backslashes_before(text, i) == i - first,
    decreases i,
{
    if first < i {
        lemma_run_length(text, first, i - 1);
    }
}

/// Behind a backslash, every template may have what is no digit, `x` or `u`; `8` and `9`; a zero
/// without an octal digit behind it; `x` with two hexadecimal digits; and `u` with four, or with a
/// number in braces.
pub proof fn law_allowed_escapes(text: Seq<char>, i: int)
    requires
        0 <= i < text.len(),
    ensures
        ({
            let hex = |k: int|
                k < text.len() && ('0' <= text[k] <= '9' || 'a' <= text[k] <= 'f' || 'A' <= text[k]
                    <= 'F');
            template::is_allowed_escape(text, i) <==> match text[i] {
                '1' | '2' | '3' | '4' | '5' | '6' | '7' => false,
                '0' => i + 1 == text.len() || text[i + 1] < '0' || '7' < text[i + 1],
                'x' => hex(i + 1) && hex(i + 2),
                'u' => (hex(i + 1) && hex(i + 2) && hex(i + 3) && hex(i + 4))
                    || template::is_braced_from(text, i + 1),
                _ => true,
            }
        }),
{
}

/// The number in braces has 1 to 255 hexadecimal digits and is at most that of the last character.
/// It may be that of half a pair of UTF-16 if it has at most 6 digits.
pub proof fn law_braced_numbers(text: Seq<char>, open: int)
    ensures
        template::is_braced_from(text, open) <==> exists|close: int|
            {
                let digits = #[trigger] text.subrange(open + 1, close);
                &&& open + 2 <= close < text.len()
                &&& close - open - 1 <= 255
                &&& text[open] == '{'
                &&& text[close] == '}'
                &&& forall|k: int|
                    open < k < close ==> {
                        let c = #[trigger] text[k];
                        '0' <= c <= '9' || 'a' <= c <= 'f' || 'A' <= c <= 'F'
                    }
                &&& template::hex_value(digits) <= 0x10ffff
                &&& close - open - 1 <= 6 || !(0xd800 <= template::hex_value(digits) <= 0xdfff)
            },
{
    if template::is_braced_from(text, open) {
        let close = choose|close: int| template::is_braced(text, open, close);
        let digits = text.subrange(open + 1, close);
        assert(template::is_braced(text, open, close));
        assert forall|k: int| open < k < close implies template::is_hex(#[trigger] text[k]) by {}
    }
    if exists|close: int|
        {
            let digits = #[trigger] text.subrange(open + 1, close);
            &&& open + 2 <= close < text.len()
            &&& close - open - 1 <= 255
            &&& text[open] == '{'
            &&& text[close] == '}'
            &&& forall|k: int|
                open < k < close ==> {
                    let c = #[trigger] text[k];
                    '0' <= c <= '9' || 'a' <= c <= 'f' || 'A' <= c <= 'F'
                }
            &&& template::hex_value(digits) <= 0x10ffff
            &&& close - open - 1 <= 6 || !(0xd800 <= template::hex_value(digits) <= 0xdfff)
        } {
        let close = choose|close: int|
            {
                let digits = #[trigger] text.subrange(open + 1, close);
                &&& open + 2 <= close < text.len()
                &&& close - open - 1 <= 255
                &&& text[open] == '{'
                &&& text[close] == '}'
                &&& forall|k: int|
                    open < k < close ==> {
                        let c = #[trigger] text[k];
                        '0' <= c <= '9' || 'a' <= c <= 'f' || 'A' <= c <= 'F'
                    }
                &&& template::hex_value(digits) <= 0x10ffff
                &&& close - open - 1 <= 6 || !(0xd800 <= template::hex_value(digits) <= 0xdfff)
            };
        assert(template::is_braced(text, open, close));
    }
}

/// No digits stand for 0, and each further digit for what was there, 16 times, and itself.
pub proof fn law_hexadecimal_numbers(digits: Seq<char>, digit: char)
    requires
        '0' <= digit <= '9' || 'a' <= digit <= 'f' || 'A' <= digit <= 'F',
    ensures
        template::hex_value(Seq::empty()) == 0,
        template::hex_value(digits.push(digit)) == 16 * template::hex_value(digits) + if digit
            <= '9' {
            digit as u32 - 0x30
        } else if digit <= 'F' {
            digit as u32 - 0x37
        } else {
            digit as u32 - 0x57
        },
{
    assert(digits.push(digit).drop_last() =~= digits);
}

} // verus!
