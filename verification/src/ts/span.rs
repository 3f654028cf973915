//! Positions in source files.

use vstd::prelude::*;
use vstd::string::*;
use vstd::utf8;

use crate::ts::bigint;
use crate::ts::lines;
use crate::ts::swc;
use crate::ts::template;

verus! {

/// What separates the components of a path.
pub const SLASH: u8 = 0x2f;

/// The component that stands for the directory itself.
pub const DOT: u8 = 0x2e;

/// A slash behind which a component starts that is neither empty nor a dot.
pub open spec fn is_needed_slash(path: Seq<u8>, i: int) -> bool {
    &&& i + 1 < path.len()
    &&& path[i + 1] != SLASH
    &&& path[i + 1] == DOT ==> i + 2 < path.len() && path[i + 2] != SLASH
}

/// A path without redundancy: no component behind the first is empty or a dot. Two such paths are
/// the same exactly if their bytes are.
pub open spec fn is_normal_path(path: Seq<u8>) -> bool {
    ||| path == seq![SLASH]
    ||| forall|i: int|
        0 <= i < path.len() && #[trigger] path[i] == SLASH ==> is_needed_slash(path, i)
}

/// The path of a source file, in bytes as on Unix.
#[derive(Debug, PartialEq, Eq)]
pub struct SourceFile {
    pub path: Vec<u8>,
}

impl View for SourceFile {
    type V = Seq<u8>;

    open spec fn view(&self) -> Seq<u8> {
        self.path@
    }
}

impl SourceFile {
    /// Whether the path is without redundancy.
    pub fn is_normal(&self) -> (normal: bool)
        ensures
            normal == is_normal_path(self@),
    {
        let path: &Vec<u8> = &self.path;
        if path.len() == 1 && path[0] == SLASH {
            assert(path@ =~= seq![SLASH]);
            return true;
        }
        for i in 0..path.len()
            invariant
                path@ == self@,
                path@ != seq![SLASH],
                forall|k: int|
                    0 <= k < i && #[trigger] path@[k] == SLASH ==> is_needed_slash(path@, k),
        {
            if path[i] == SLASH {
                let left: usize = path.len() - i;
                let needed: bool = left > 1 && path[i + 1] != SLASH && (path[i + 1] != DOT || (left
                    > 2 && path[i + 2] != SLASH));
                if !needed {
                    assert(!is_needed_slash(path@, i as int));
                    return false;
                }
            }
        }
        true
    }
}

impl Clone for SourceFile {
    fn clone(&self) -> (copy: SourceFile)
        ensures
            copy@ == self@,
    {
        let copy = SourceFile { path: self.path.clone() };
        assert(copy@ =~= self@);
        copy
    }
}

/// A line and a column.
#[derive(Clone, Copy, Debug, PartialEq, Eq, Structural)]
pub struct LineColumn {
    pub line: usize,
    pub column: usize,
}

impl View for LineColumn {
    type V = (nat, nat);

    open spec fn view(&self) -> (nat, nat) {
        (self.line as nat, self.column as nat)
    }
}

/// A part of a source file.
#[derive(Debug, PartialEq, Eq)]
pub struct Span {
    pub source_file: SourceFile,
    pub start: LineColumn,
    pub end: LineColumn,
}

/// A part of a text, by the positions of its first byte and of the byte behind it.
#[derive(Clone, Copy, Debug, PartialEq, Eq, Structural)]
pub struct ByteSpan {
    pub lo: u32,
    pub hi: u32,
}

/// The text of a source file and the position of its first byte.
///
/// Positions count through all texts at hand.
#[derive(Debug)]
pub struct SourceText {
    pub text: String,
    pub start: u32,
}

impl SourceText {
    /// The text's bytes have positions.
    pub open spec fn wf(self) -> bool {
        &&& 0 < self.start
        &&& self.start + utf8::encode_utf8(self.text@).len() < swc::RESERVED_POSITIONS
    }

    /// A character starts at byte `position`, or the text ends there.
    pub open spec fn is_boundary(self, position: u32) -> bool {
        utf8::is_char_boundary(
            utf8::encode_utf8(self.text@),
            position - self.start,
        )
    }

    /// The line and the column of byte `position`.
    pub open spec fn line_column(self, position: u32) -> (nat, nat) {
        lines::char_position(self.text@, lines::chars_before(self.text@, position - self.start))
    }

    /// Whether the text is one that [`crate::ts::inner::Inner::parse_source_file`] must not be
    /// called with, since the parser may panic on it.
    pub fn stops_parser(&self) -> (stops: bool)
        ensures
            stops == (bigint::has_separated_bigint(self.text@)
                || template::has_bad_template_escape(self.text@)),
    {
        let mut chars: Vec<char> = Vec::new();
        for c in iter: self.text.as_str().chars()
            invariant
                chars@ == self.text@.take(iter.index() as int),
                iter.seq() == self.text@,
        {
            chars.push(c);
        }
        assert(chars@ =~= self.text@);
        bigint::contains_separated_bigint(&chars) || template::contains_bad_template_escape(&chars)
    }
}

/// Of two positions in a text, the later one has the later line and column. So they differ.
pub proof fn law_line_columns_follow_the_text(source_map: SourceText, low: u32, high: u32)
    requires
        source_map.is_boundary(low),
        source_map.is_boundary(high),
        low < high,
    ensures
        lines::is_before(source_map.line_column(low), source_map.line_column(high)),
{
    let text = source_map.text@;
    let (low, high) = (low - source_map.start, high - source_map.start);
    utf8::encode_utf8_valid_utf8(text);
    lines::lemma_chars_before_increases(text, low, high);
    lines::law_positions_follow_the_text(
        text,
        lines::chars_before(text, low),
        lines::chars_before(text, high),
    );
}

/// The line and the column of byte `position`.
pub fn to_line_column(position: u32, source_map: &SourceText) -> (line_column: LineColumn)
    requires
        source_map.wf(),
        source_map.start <= position,
        source_map.is_boundary(position),
    ensures
        line_column@ == source_map.line_column(position),
{
    let (line, column): (usize, usize) = swc::lookup_char_pos(
        source_map.text.as_str(),
        position - source_map.start + 1,
    );
    LineColumn { line, column }
}

impl ByteSpan {
    /// Both ends of the span are character boundaries of the text.
    pub open spec fn is_within(self, source_map: SourceText) -> bool {
        &&& source_map.start <= self.lo
        &&& source_map.start <= self.hi
        &&& source_map.is_boundary(self.lo)
        &&& source_map.is_boundary(self.hi)
    }

    /// The span in lines and columns of `source_file`.
    pub fn to_internal_span(&self, source_map: &SourceText, source_file: &SourceFile) -> (span:
        Span)
        requires
            source_map.wf(),
            self.is_within(*source_map),
        ensures
            span.source_file@ == source_file@,
            span.start@ == source_map.line_column(self.lo),
            span.end@ == source_map.line_column(self.hi),
    {
        Span {
            source_file: source_file.clone(),
            start: to_line_column(self.lo, source_map),
            end: to_line_column(self.hi, source_map),
        }
    }
}

} // verus!
