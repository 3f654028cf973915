//! The parts of TypeScript's syntax that decide what a test is and what can be removed from it.

use vstd::prelude::*;

use crate::ts::span::ByteSpan;

verus! {

/// A statement.
#[derive(Debug, PartialEq, Eq)]
pub enum Stmt {
    Expr(ExprStmt),
    Break(ByteSpan),
    Continue(ByteSpan),
    Return(ByteSpan),
    Throw(ByteSpan),
    Decl(ByteSpan),
    /// Any other statement.
    Other(ByteSpan),
}

/// An expression that serves as a statement.
#[derive(Debug, PartialEq, Eq)]
pub struct ExprStmt {
    pub span: ByteSpan,
    pub expr: Box<Expr>,
}

/// An expression.
#[derive(Debug, PartialEq, Eq)]
pub enum Expr {
    Ident(Ident),
    Lit(Lit),
    Call(CallExpr),
    Member(MemberExpr),
    Await(AwaitExpr),
    Arrow(ArrowExpr),
    /// No expression at all.
    Invalid(ByteSpan),
    /// Any other expression.
    Other(ByteSpan),
}

/// An identifier.
#[derive(Debug, PartialEq, Eq)]
pub struct Ident {
    pub span: ByteSpan,
    pub sym: String,
}

/// A literal.
#[derive(Debug, PartialEq, Eq)]
pub enum Lit {
    Str(Str),
    /// Any other literal.
    Other(ByteSpan),
}

/// A string literal.
#[derive(Debug, PartialEq, Eq)]
pub struct Str {
    pub span: ByteSpan,
    pub value: String,
}

/// A call. Spread arguments are held like others.
#[derive(Debug, PartialEq, Eq)]
pub struct CallExpr {
    pub span: ByteSpan,
    pub callee: Callee,
    pub args: Vec<Expr>,
}

/// What is called.
#[derive(Debug, PartialEq, Eq)]
pub enum Callee {
    Super,
    Import,
    Expr(Box<Expr>),
}

/// An access to a member.
#[derive(Debug, PartialEq, Eq)]
pub struct MemberExpr {
    pub span: ByteSpan,
    pub obj: Box<Expr>,
    pub prop: MemberProp,
}

/// How a member is named.
#[derive(Debug, PartialEq, Eq)]
pub enum MemberProp {
    Ident(Ident),
    PrivateName,
    Computed,
}

/// An awaited expression.
#[derive(Debug, PartialEq, Eq)]
pub struct AwaitExpr {
    pub span: ByteSpan,
    pub arg: Box<Expr>,
}

/// An arrow function.
#[derive(Debug, PartialEq, Eq)]
pub struct ArrowExpr {
    pub span: ByteSpan,
    pub body: Box<BlockStmtOrExpr>,
}

/// The body of an arrow function.
#[derive(Debug, PartialEq, Eq)]
pub enum BlockStmtOrExpr {
    BlockStmt(BlockStmt),
    Expr(Box<Expr>),
}

/// A block.
#[derive(Debug, PartialEq, Eq)]
pub struct BlockStmt {
    pub span: ByteSpan,
    pub stmts: Vec<Stmt>,
}

/// A piece of syntax that takes up a part of the text.
pub trait Node {
    /// The part of the text that it takes up.
    spec fn byte_span_spec(&self) -> ByteSpan;

    /// The part of the text that it takes up.
    fn byte_span(&self) -> (span: ByteSpan)
        ensures
            span == self.byte_span_spec(),
    ;
}

impl Node for Stmt {
    open spec fn byte_span_spec(&self) -> ByteSpan {
        match *self {
            Stmt::Expr(stmt) => stmt.span,
            Stmt::Break(span)
            | Stmt::Continue(span)
            | Stmt::Return(span)
            | Stmt::Throw(span)
            | Stmt::Decl(span)
            | Stmt::Other(span) => span,
        }
    }

    fn byte_span(&self) -> (span: ByteSpan) {
        match self {
            Stmt::Expr(stmt) => stmt.span,
            Stmt::Break(span)
            | Stmt::Continue(span)
            | Stmt::Return(span)
            | Stmt::Throw(span)
            | Stmt::Decl(span)
            | Stmt::Other(span) => *span,
        }
    }
}

impl Node for Expr {
    open spec fn byte_span_spec(&self) -> ByteSpan {
        match *self {
            Expr::Ident(ident) => ident.span,
            Expr::Lit(Lit::Str(str)) => str.span,
            Expr::Call(call) => call.span,
            Expr::Member(member) => member.span,
            Expr::Await(await_) => await_.span,
            Expr::Arrow(arrow) => arrow.span,
            Expr::Lit(Lit::Other(span)) | Expr::Invalid(span) | Expr::Other(span) => span,
        }
    }

    fn byte_span(&self) -> (span: ByteSpan) {
        match self {
            Expr::Ident(ident) => ident.span,
            Expr::Lit(Lit::Str(str)) => str.span,
            Expr::Call(call) => call.span,
            Expr::Member(member) => member.span,
            Expr::Await(await_) => await_.span,
            Expr::Arrow(arrow) => arrow.span,
            Expr::Lit(Lit::Other(span)) | Expr::Invalid(span) | Expr::Other(span) => *span,
        }
    }
}

impl Node for MemberExpr {
    open spec fn byte_span_spec(&self) -> ByteSpan {
        self.span
    }

    fn byte_span(&self) -> (span: ByteSpan) {
        self.span
    }
}

impl Node for CallExpr {
    open spec fn byte_span_spec(&self) -> ByteSpan {
        self.span
    }

    fn byte_span(&self) -> (span: ByteSpan) {
        self.span
    }
}

} // verus!
