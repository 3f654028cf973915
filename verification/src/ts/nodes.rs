//! Syntax together with the text that it comes from, and what it is called.

use vstd::prelude::*;
use vstd::std_specs::cmp::{PartialEqSpec, PartialEqSpecImpl};

use std::rc::Rc;

use crate::ts::ast::{CallExpr, Callee, Expr, MemberExpr, MemberProp, Node, Stmt};
use crate::ts::span::{SourceFile, SourceText, Span};

verus! {

/// A test: a call of `it`.
#[derive(Clone, Copy)]
pub struct Test<'ast> {
    /// The message that `it` is called with.
    pub it_message: &'ast String,
    /// The statements that make up the test.
    pub stmts: &'ast Vec<Stmt>,
}

/// A piece of syntax and the text that it comes from.
pub struct SourceMapped<'ast, T> {
    pub source_map: &'ast Rc<SourceText>,
    pub node: &'ast T,
}

impl<'ast, T> Clone for SourceMapped<'ast, T> {
    fn clone(&self) -> (copy: Self)
        ensures
            copy == *self,
    {
        *self
    }
}

impl<'ast, T> Copy for SourceMapped<'ast, T> {

}

/// Pieces of syntax are equal wherever they come from.
impl<'ast, T: PartialEq> PartialEq for SourceMapped<'ast, T> {
    fn eq(&self, other: &Self) -> (equal: bool) {
        self.node.eq(other.node)
    }
}

impl<'ast, T: PartialEq> PartialEqSpecImpl for SourceMapped<'ast, T> {
    open spec fn obeys_eq_spec() -> bool {
        T::obeys_eq_spec()
    }

    open spec fn eq_spec(&self, other: &Self) -> bool {
        self.node.eq_spec(other.node)
    }
}

impl<'ast, T: Eq> Eq for SourceMapped<'ast, T> {

}

/// Something that takes up a part of a source file.
pub trait Spanned {
    /// The part is given in positions of the text.
    spec fn has_span(&self) -> bool;

    /// `span` is the part of `source_file` that `self` takes up.
    spec fn spans(&self, source_file: SourceFile, span: Span) -> bool;

    /// The part of the source file that `self` takes up.
    fn span(&self, source_file: &SourceFile) -> (span: Span)
        requires
            self.has_span(),
        ensures
            self.spans(*source_file, span),
    ;
}

impl<'ast, T: Node> Spanned for SourceMapped<'ast, T> {
    open spec fn has_span(&self) -> bool {
        self.source_map.wf() && self.node.byte_span_spec().is_within(**self.source_map)
    }

    open spec fn spans(&self, source_file: SourceFile, span: Span) -> bool {
        let byte_span = self.node.byte_span_spec();
        &&& span.source_file@ == source_file@
        &&& span.start@ == self.source_map.line_column(byte_span.lo)
        &&& span.end@ == self.source_map.line_column(byte_span.hi)
    }

    fn span(&self, source_file: &SourceFile) -> (span: Span) {
        self.node.byte_span().to_internal_span(self.source_map, source_file)
    }
}

/// Something with a name.
pub trait Named {
    /// Its name.
    spec fn name_spec(&self) -> Seq<char>;

    /// Its name.
    fn name(&self) -> (name: String)
        ensures
            name@ == self.name_spec(),
    ;
}

/// Something that may have a name.
pub trait MaybeNamed {
    /// Its name, if it has one.
    spec fn name_spec(&self) -> Option<Seq<char>>;

    /// Its name, if it has one.
    fn name(&self) -> (name: Option<String>)
        ensures
            name is Some <==> self.name_spec() is Some,
            name matches Some(name) ==> self.name_spec() == Some(name@),
    ;
}

/// A test is named by its message.
impl<'ast> Named for Test<'ast> {
    open spec fn name_spec(&self) -> Seq<char> {
        self.it_message@
    }

    fn name(&self) -> (name: String) {
        self.it_message.clone()
    }
}

/// The name of an expression: that of an identifier.
pub open spec fn expr_name(expr: Expr) -> Option<Seq<char>> {
    match expr {
        Expr::Ident(ident) => Some(ident.sym@),
        _ => None,
    }
}

impl<'ast> MaybeNamed for SourceMapped<'ast, Expr> {
    open spec fn name_spec(&self) -> Option<Seq<char>> {
        expr_name(*self.node)
    }

    fn name(&self) -> (name: Option<String>) {
        if let Expr::Ident(ident) = self.node {
            Some(ident.sym.clone())
        } else {
            None
        }
    }
}

/// A member's name: that after the dot, unless it is private.
impl<'ast> MaybeNamed for SourceMapped<'ast, MemberExpr> {
    open spec fn name_spec(&self) -> Option<Seq<char>> {
        match self.node.prop {
            MemberProp::Ident(ident) => Some(ident.sym@),
            _ => None,
        }
    }

    fn name(&self) -> (name: Option<String>) {
        if let MemberProp::Ident(ident) = &self.node.prop {
            Some(ident.sym.clone())
        } else {
            None
        }
    }
}

/// A call's name: that of the function, if it is called by an identifier.
impl<'ast> MaybeNamed for SourceMapped<'ast, CallExpr> {
    open spec fn name_spec(&self) -> Option<Seq<char>> {
        match self.node.callee {
            Callee::Expr(callee) => expr_name(*callee),
            _ => None,
        }
    }

    fn name(&self) -> (name: Option<String>) {
        if let Callee::Expr(callee) = &self.node.callee {
            if let Expr::Ident(ident) = &**callee {
                return Some(ident.sym.clone());
            }
        }
        None
    }
}

} // verus!
