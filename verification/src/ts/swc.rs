//! Calls into the parser.

use vstd::prelude::*;
use vstd::string::*;

use swc_core::common::{BytePos, FileName, SourceMap};
use swc_core::ecma::ast::{EsVersion, Module};
use swc_core::ecma::parser::lexer::Lexer;
use swc_core::ecma::parser::{Parser, StringInput, Syntax, TsSyntax};

use crate::ts::bigint;
use crate::ts::lines;
use crate::ts::template;

verus! {

/// The positions from here on stand for no byte of a text. Neither does position 0.
pub const RESERVED_POSITIONS: u32 = 0xfffe_ffff;

/// A parsed module.
#[verifier::external_type_specification]
#[verifier::external_body]
pub struct ExModule(Module);

/// What the parser makes of a text whose bytes have the positions from `start` to `end`: a module,
/// or what its error says.
pub uninterp spec fn parsed_module(text: Seq<char>, start: u32, end: u32) -> Result<
    Module,
    Seq<char>,
>;

/// Calls [`Parser::parse_typescript_module`] on a lexer for `text` with the default settings for
/// TypeScript, and formats its error.
///
/// Believed of it: what comes back depends on the text and its positions alone. Which module a text
/// stands for, and which texts stand for none, is left to the parser.
///
/// The parser panics on integers such as `0x_1n`, and where it recovers from an error in a template
/// with an escape sequence such as `` `\1` ``. Texts in which these occur are left out. In a string,
/// a comment, a name or a template with a tag they do no harm, but which part of a text is one is
/// for the parser to tell.
///
/// All this is believed of a parser that is built without debug assertions. With them, it also
/// panics on some texts that are not well-formed, and nothing short of parsing tells which.
#[verifier::external_body]
pub(crate) fn parse_typescript_module(text: &str, start: u32, end: u32) -> (parsed: Result<
    Module,
    String,
>)
    requires
        0 < start,
        end == start + text.spec_bytes().len(),
        end < RESERVED_POSITIONS,
        !bigint::has_separated_bigint(text@),
        !template::has_bad_template_escape(text@),
    ensures
        match parsed {
            Ok(module) => parsed_module(text@, start, end) == Ok::<Module, Seq<char>>(module),
            Err(error) => parsed_module(text@, start, end) == Err::<Module, Seq<char>>(error@),
        },
{
    let lexer = Lexer::new(
        Syntax::Typescript(TsSyntax::default()),
        EsVersion::default(),
        StringInput::new(text, BytePos(start), BytePos(end)),
        None,
    );
    let mut parser = Parser::new_from(lexer);
    parser.parse_typescript_module().map_err(|error| format!("{error:?}"))
}

/// Calls [`SourceMap::lookup_char_pos`] on a source map that holds `text` alone, so that the first
/// byte of `text` has position 1.
///
/// Believed of it: wherever a character starts or the text ends, it yields the line and the column
/// of that character. Line feeds, carriage returns and pairs of these break lines, but a break at
/// the end of the text starts no line. Lines count from 1, and there are none in an empty text.
/// Columns count from 0, in units of UTF-16.
#[verifier::external_body]
pub(crate) fn lookup_char_pos(text: &str, position: u32) -> (line_column: (usize, usize))
    requires
        0 < position,
        1 + text.spec_bytes().len() < RESERVED_POSITIONS,
        vstd::utf8::is_char_boundary(text.spec_bytes(), position - 1),
    ensures
        (line_column.0 as nat, line_column.1 as nat) == lines::char_position(
            text@,
            lines::chars_before(text@, position - 1),
        ),
{
    let source_map = SourceMap::default();
    // A source map drops one byte order mark.
    source_map.new_source_file(FileName::Anon.into(), format!("\u{feff}{text}"));
    let loc = source_map.lookup_char_pos(BytePos(position));
    (loc.line, loc.col.0)
}

} // verus!
