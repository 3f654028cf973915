//! What the line and the column of a position are, given the text.
//!
//! The laws are about any call of [`span::to_line_column`], and about the ends of the spans that
//! [`ByteSpan::to_internal_span`] returns.

use vstd::prelude::*;
use vstd::set_lib;
use vstd::utf8;

use crate::ts::lines;
use crate::ts::span;
use crate::ts::span::{ByteSpan, LineColumn, SourceFile, SourceText, Span};

verus! {

/// The characters at which a line break ends with text behind it, among the first `n`.
spec fn breaks(text: Seq<char>, n: int) -> Set<int> {
    set_lib::set_int_range(0, n).filter(
        |i: int|
            i + 1 < text.len() && (text[i] == '\n' || (text[i] == '\r' && text[i + 1] != '\n')),
    )
}

/// The characters from `s` to `n` that take two units in UTF-16.
spec fn pairs(text: Seq<char>, s: int, n: int) -> Set<int> {
    set_lib::set_int_range(s, n).filter(|i: int| text[i] as u32 >= 0x10000)
}

/// `s` starts the line that character `n` is on.
spec fn starts_line_of(text: Seq<char>, s: int, n: int) -> bool {
    &&& 0 <= s <= n
    &&& s == 0 || breaks(text, n).contains(s - 1)
    &&& forall|i: int| s <= i < n ==> !breaks(text, n).contains(i)
}

proof fn lemma_finite(text: Seq<char>, s: int, n: int)
    requires
        s <= n,
        0 <= n,
    ensures
        breaks(text, n).finite(),
        pairs(text, s, n).finite(),
{
    set_lib::lemma_int_range(0, n);
    set_lib::lemma_int_range(s, n);
    set_lib::set_int_range(0, n).lemma_len_filter(
        |i: int|
            i + 1 < text.len() && (text[i] == '\n' || (text[i] == '\r' && text[i + 1] != '\n')),
    );
    set_lib::set_int_range(s, n).lemma_len_filter(|i: int| text[i] as u32 >= 0x10000);
}

/// Counting lines and columns character by character is counting breaks and units.
proof fn lemma_char_position(text: Seq<char>, n: nat) -> (s: int)
    requires
        n <= text.len(),
    ensures
        text.len() > 0 ==> lines::char_position(text, n).0 == 1 + breaks(text, n as int).len(),
        starts_line_of(text, s, n as int),
        lines::char_position(text, n).1 == n - s + pairs(text, s, n as int).len(),
    decreases n,
{
    if n == 0 {
        assert(breaks(text, 0) =~= Set::empty());
        assert(pairs(text, 0, 0) =~= Set::empty());
        0
    } else {
        let m = (n - 1) as nat;
        let s = lemma_char_position(text, m);
        lemma_finite(text, s, m as int);
        if n < text.len() && lines::ends_line(text, m as int) {
            assert(breaks(text, n as int) =~= breaks(text, m as int).insert(m as int));
            assert(pairs(text, n as int, n as int) =~= Set::empty());
            n as int
        } else {
            assert(breaks(text, n as int) =~= breaks(text, m as int));
            if text[m as int] as u32 >= 0x10000 {
                assert(pairs(text, s, n as int) =~= pairs(text, s, m as int).insert(m as int));
            } else {
                assert(pairs(text, s, n as int) =~= pairs(text, s, m as int));
            }
            assert forall|i: int| s <= i < n implies !breaks(text, n as int).contains(i) by {
                assert(!breaks(text, m as int).contains(i));
            }
            s
        }
    }
}

/// The characters before the byte behind the first `n` characters are these `n`.
proof fn lemma_chars_before(text: Seq<char>, n: nat)
    requires
        n <= text.len(),
    ensures
        lines::chars_before(text, utf8::encode_utf8(text.take(n as int)).len() as int) == n,
    decreases n,
{
    let head = text.take(n as int);
    if n > 0 {
        let rest = text.drop_first();
        let m = (n - 1) as nat;
        lemma_chars_before(rest, m);
        assert(head.drop_first() =~= rest.take(m as int));
        assert(head[0] == text[0]);
        utf8::encode_utf8_first_scalar(head);
        assert(utf8::encode_scalar(text[0] as u32).len() > 0);
    } else {
        assert(head =~= Seq::empty());
    }
}

/// A byte is a boundary exactly if it is behind some number of characters.
proof fn lemma_boundary(text: Seq<char>, offset: int)
    ensures
        utf8::is_char_boundary(utf8::encode_utf8(text), offset) <==> exists|n: int|
            0 <= n <= text.len() && (#[trigger] utf8::encode_utf8(text.take(n))).len() == offset,
    decreases text.len(),
{
    let bytes = utf8::encode_utf8(text);
    utf8::encode_utf8_valid_utf8(text);
    assert(text.take(0) =~= Seq::empty());
    assert(utf8::encode_utf8(text.take(0)).len() == 0);
    if text.len() > 0 {
        let rest = text.drop_first();
        let first = utf8::encode_scalar(text[0] as u32).len() as int;
        utf8::encode_utf8_first_scalar(text);
        assert(utf8::pop_first_scalar(bytes) =~= utf8::encode_utf8(rest));
        utf8::encode_utf8_valid_utf8(rest);
        lemma_boundary(rest, offset - first);
        assert forall|n: int| 0 < n <= text.len() implies (#[trigger] utf8::encode_utf8(
            text.take(n),
        )).len() == first + utf8::encode_utf8(rest.take(n - 1)).len() by {
            assert(text.take(n).drop_first() =~= rest.take(n - 1));
            assert(text.take(n)[0] == text[0]);
        }
        if utf8::is_char_boundary(bytes, offset) && offset != 0 {
            let m = choose|m: int|
                0 <= m <= rest.len() && (#[trigger] utf8::encode_utf8(rest.take(m))).len() == offset
                    - first;
            assert(utf8::encode_utf8(text.take(m + 1)).len() == offset);
        }
        if exists|n: int|
            0 <= n <= text.len() && (#[trigger] utf8::encode_utf8(text.take(n))).len() == offset {
            let n = choose|n: int|
                0 <= n <= text.len() && (#[trigger] utf8::encode_utf8(text.take(n))).len()
                    == offset;
            if n > 0 {
                assert(utf8::encode_utf8(rest.take(n - 1)).len() == offset - first);
                lemma_take_is_shorter(rest, n - 1);
                assert(bytes.len() == first + utf8::encode_utf8(rest).len());
            }
        }
    } else {
        assert forall|n: int| 0 <= n <= text.len() implies (#[trigger] utf8::encode_utf8(
            text.take(n),
        )).len() == 0 by {
            assert(text.take(n) =~= Seq::empty());
        }
    }
}

proof fn lemma_take_is_shorter(text: Seq<char>, n: int)
    requires
        0 <= n <= text.len(),
    ensures
        utf8::encode_utf8(text.take(n)).len() <= utf8::encode_utf8(text).len(),
    decreases text.len(),
{
    if n == 0 {
        assert(text.take(0) =~= Seq::empty());
    } else {
        lemma_take_is_shorter(text.drop_first(), n - 1);
        assert(text.take(n).drop_first() =~= text.drop_first().take(n - 1));
        assert(text.take(n)[0] == text[0]);
    }
}

/// Wherever a text starts, the line of the position behind its first `n` characters is 1 and the
/// number of line breaks that end among these, each being a line feed or a carriage return without
/// a line feed behind it, and none at the very end of the text.
pub proof fn law_line_counts_the_breaks(
    source_map: &SourceText,
    position: u32,
    n: int,
    line_column: LineColumn,
    bytes: &ByteSpan,
    source_file: &SourceFile,
    span: Span,
)
    requires
        0 <= n <= source_map.text@.len(),
        0 < source_map.text@.len(),
        utf8::encode_utf8(source_map.text@.take(n)).len() == position - source_map.start,
        ({
            ||| call_ensures(span::to_line_column, (position, source_map), line_column)
            ||| call_ensures(ByteSpan::to_internal_span, (bytes, source_map, source_file), span)
                && position == bytes.lo && line_column == span.start
            ||| call_ensures(ByteSpan::to_internal_span, (bytes, source_map, source_file), span)
                && position == bytes.hi && line_column == span.end
        }),
    ensures
        ({
            let text = source_map.text@;
            line_column.line == 1 + set_lib::set_int_range(0, n).filter(
                |i: int|
                    i + 1 < text.len() && (text[i] == '\n' || (text[i] == '\r' && text[i + 1]
                        != '\n')),
            ).len()
        }),
{
    let text = source_map.text@;
    lemma_chars_before(text, n as nat);
    let s = lemma_char_position(text, n as nat);
    assert(line_column.line == 1 + breaks(text, n).len());
}

/// Wherever a text starts, the column of the position behind its first `n` characters is the number
/// of UTF-16 units between that position and the start `s` of its line: one for each character, and
/// another for each character beyond the 16 bits. The line starts with the text, or behind a line
/// break, and there is no line break from there to the position.
pub proof fn law_column_counts_the_units(
    source_map: &SourceText,
    position: u32,
    n: int,
    line_column: LineColumn,
    bytes: &ByteSpan,
    source_file: &SourceFile,
    span: Span,
)
    requires
        0 <= n <= source_map.text@.len(),
        utf8::encode_utf8(source_map.text@.take(n)).len() == position - source_map.start,
        ({
            ||| call_ensures(span::to_line_column, (position, source_map), line_column)
            ||| call_ensures(ByteSpan::to_internal_span, (bytes, source_map, source_file), span)
                && position == bytes.lo && line_column == span.start
            ||| call_ensures(ByteSpan::to_internal_span, (bytes, source_map, source_file), span)
                && position == bytes.hi && line_column == span.end
        }),
    ensures
        ({
            let text = source_map.text@;
            exists|s: int|
                {
                    &&& 0 <= s <= n
                    &&& s == 0 || s < text.len() && (text[s - 1] == '\n' || text[s - 1] == '\r'
                        && text[s] != '\n')
                    &&& forall|i: int|
                        s <= i < n && i + 1 < text.len() ==> #[trigger] text[i] != '\n' && !(text[i]
                            == '\r' && text[i + 1] != '\n')
                    &&& line_column.column == n - s + (#[trigger] set_lib::set_int_range(
                        s,
                        n,
                    )).filter(|i: int| text[i] as u32 >= 0x10000).len()
                }
        }),
{
    let text = source_map.text@;
    lemma_chars_before(text, n as nat);
    let s = lemma_char_position(text, n as nat);
    assert(line_column.column == n - s + pairs(text, s, n).len());
    assert forall|i: int| s <= i < n && i + 1 < text.len() implies #[trigger] text[i] != '\n' && !(
    text[i] == '\r' && text[i + 1] != '\n') by {
        assert(!breaks(text, n).contains(i));
    }
    assert(line_column.column == n - s + set_lib::set_int_range(s, n).filter(
        |i: int| text[i] as u32 >= 0x10000,
    ).len());
}

/// An empty text has no line, and column 0.
pub proof fn law_empty_text_has_no_line(
    source_map: &SourceText,
    position: u32,
    line_column: LineColumn,
    bytes: &ByteSpan,
    source_file: &SourceFile,
    span: Span,
)
    requires
        source_map.text@.len() == 0,
        ({
            ||| call_ensures(span::to_line_column, (position, source_map), line_column)
            ||| call_ensures(ByteSpan::to_internal_span, (bytes, source_map, source_file), span)
                && position == bytes.lo && line_column == span.start
            ||| call_ensures(ByteSpan::to_internal_span, (bytes, source_map, source_file), span)
                && position == bytes.hi && line_column == span.end
        }),
    ensures
        line_column.line == 0,
        line_column.column == 0,
{
    assert(lines::chars_before(source_map.text@, position - source_map.start) == 0);
}

/// Where a text starts does not matter: at the same distance from the start, the same text has the
/// same line and column.
pub proof fn law_start_does_not_matter(
    left: &SourceText,
    left_position: u32,
    left_line_column: LineColumn,
    right: &SourceText,
    right_position: u32,
    right_line_column: LineColumn,
)
    requires
        left.text@ == right.text@,
        left_position - left.start == right_position - right.start,
        call_ensures(span::to_line_column, (left_position, left), left_line_column),
        call_ensures(span::to_line_column, (right_position, right), right_line_column),
    ensures
        left_line_column.line == right_line_column.line,
        left_line_column.column == right_line_column.column,
{
}

/// What comes behind a character does not matter to the character's line and column: they are the
/// same in two texts that agree up to the character.
pub proof fn law_later_text_does_not_matter(
    left: &SourceText,
    right: &SourceText,
    position: u32,
    n: int,
    left_line_column: LineColumn,
    right_line_column: LineColumn,
)
    requires
        left.start == right.start,
        0 <= n < left.text@.len(),
        n < right.text@.len(),
        forall|i: int| 0 <= i <= n ==> #[trigger] left.text@[i] == right.text@[i],
        utf8::encode_utf8(left.text@.take(n)).len() == position - left.start,
        call_ensures(span::to_line_column, (position, left), left_line_column),
        call_ensures(span::to_line_column, (position, right), right_line_column),
    ensures
        left_line_column.line == right_line_column.line,
        left_line_column.column == right_line_column.column,
{
    assert(left.text@.take(n) =~= right.text@.take(n));
    lemma_chars_before(left.text@, n as nat);
    lemma_chars_before(right.text@, n as nat);
    lemma_same_prefix(left.text@, right.text@, n as nat, n as nat);
}

proof fn lemma_same_prefix(left: Seq<char>, right: Seq<char>, n: nat, m: nat)
    requires
        m <= n,
        n < left.len(),
        n < right.len(),
        forall|i: int| 0 <= i <= n ==> #[trigger] left[i] == right[i],
    ensures
        lines::char_position(left, m) == lines::char_position(right, m),
    decreases m,
{
    if m > 0 {
        lemma_same_prefix(left, right, n, (m - 1) as nat);
    }
}

/// Where a text starts does not matter to spans either, and a span is in the file that was asked
/// about: moving the text and the bytes alike changes nothing.
pub proof fn law_start_does_not_matter_to_spans(
    left: &SourceText,
    left_bytes: &ByteSpan,
    left_span: Span,
    right: &SourceText,
    right_bytes: &ByteSpan,
    right_span: Span,
    source_file: &SourceFile,
)
    requires
        left.text@ == right.text@,
        left_bytes.lo - left.start == right_bytes.lo - right.start,
        left_bytes.hi - left.start == right_bytes.hi - right.start,
        call_ensures(ByteSpan::to_internal_span, (left_bytes, left, source_file), left_span),
        call_ensures(ByteSpan::to_internal_span, (right_bytes, right, source_file), right_span),
    ensures
        left_span.source_file.path@ == source_file.path@,
        right_span.source_file.path@ == source_file.path@,
        left_span.start.line == right_span.start.line,
        left_span.start.column == right_span.start.column,
        left_span.end.line == right_span.end.line,
        left_span.end.column == right_span.end.column,
{
}

/// Of two positions in a text, the later one is on a later line, or further right on the same line.
pub proof fn law_later_positions_are_later(
    source_map: &SourceText,
    low: u32,
    low_line_column: LineColumn,
    high: u32,
    high_line_column: LineColumn,
)
    requires
        low < high,
        source_map.is_boundary(low),
        source_map.is_boundary(high),
        call_ensures(span::to_line_column, (low, source_map), low_line_column),
        call_ensures(span::to_line_column, (high, source_map), high_line_column),
    ensures
        low_line_column.line < high_line_column.line || low_line_column.line
            == high_line_column.line && low_line_column.column < high_line_column.column,
{
    span::law_line_columns_follow_the_text(*source_map, low, high);
}

/// A position has a line and a column exactly if it is behind some number of the text's characters.
pub proof fn law_positions_are_behind_characters(source_map: SourceText, position: u32)
    ensures
        source_map.is_boundary(position) <==> exists|n: int|
            0 <= n <= source_map.text@.len() && (#[trigger] utf8::encode_utf8(
                source_map.text@.take(n),
            )).len() == position - source_map.start,
{
    lemma_boundary(source_map.text@, position - source_map.start);
}

/// Every position behind some number of a text's characters has a line and a column, wherever the
/// text starts, as long as its bytes have positions.
pub proof fn law_every_position_has_a_line_and_a_column(
    source_map: &SourceText,
    position: u32,
    n: int,
    bytes: &ByteSpan,
    source_file: &SourceFile,
)
    requires
        0 < source_map.start,
        source_map.start + utf8::encode_utf8(source_map.text@).len() < 0xfffe_ffff,
        0 <= n <= source_map.text@.len(),
        utf8::encode_utf8(source_map.text@.take(n)).len() == position - source_map.start,
    ensures
        call_requires(span::to_line_column, (position, source_map)),
        bytes.lo == position && bytes.hi == position ==> call_requires(
            ByteSpan::to_internal_span,
            (bytes, source_map, source_file),
        ),
{
    lemma_boundary(source_map.text@, position - source_map.start);
    assert(source_map.is_boundary(position));
}

/// A text may start at every position but 0 from which on its bytes have positions.
pub proof fn law_texts_fit_below_the_reserved_positions(source_map: SourceText)
    ensures
        source_map.wf() <==> 0 < source_map.start && source_map.start + utf8::encode_utf8(
            source_map.text@,
        ).len() < 0xfffe_ffff,
{
}

/// A path without redundancy is the root, or else every slash in it has a character behind it that
/// is no slash, and no dot that is a component by itself.
pub proof fn law_normal_paths(source_file: &SourceFile, normal: bool)
    requires
        call_ensures(SourceFile::is_normal, (source_file,), normal),
    ensures
        normal == span::is_normal_path(source_file@),
        normal <==> {
            let path = source_file.path@;
            ||| path =~= seq![0x2fu8]
            ||| forall|i: int|
                0 <= i < path.len() && #[trigger] path[i] == 0x2f ==> {
                    &&& i + 1 < path.len()
                    &&& path[i + 1] != 0x2f
                    &&& path[i + 1] == 0x2e ==> i + 2 < path.len() && path[i + 2] != 0x2f
                }
        },
{
    let path = source_file.path@;
    if span::is_normal_path(path) && !(path =~= seq![0x2fu8]) {
        assert forall|i: int| 0 <= i < path.len() && #[trigger] path[i] == 0x2f implies i + 1
            < path.len() && path[i + 1] != 0x2f && (path[i + 1] == 0x2e ==> i + 2 < path.len()
            && path[i + 2] != 0x2f) by {
            assert(span::is_needed_slash(path, i));
        }
    }
}

} // verus!
