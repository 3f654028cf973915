//! Recognising tests.

use vstd::prelude::*;
use vstd::string::*;

use crate::ts::ast::{BlockStmtOrExpr, Callee, Expr, Lit, Stmt};
use crate::ts::nodes::Test;

verus! {

/// The message and the statements of the test that an expression is.
///
/// A test is a call of `it` with two arguments: a string, and an arrow function whose body is a
/// block.
pub open spec fn it_call(expr: Expr) -> Option<(String, Vec<Stmt>)> {
    match expr {
        Expr::Call(call) => match call.callee {
            Callee::Expr(callee) => match *callee {
                Expr::Ident(ident) => if ident.sym@ == "it"@ && call.args@.len() == 2 {
                    match (call.args@[0], call.args@[1]) {
                        (Expr::Lit(Lit::Str(str)), Expr::Arrow(arrow)) => match *arrow.body {
                            BlockStmtOrExpr::BlockStmt(block) => Some((str.value, block.stmts)),
                            _ => None,
                        },
                        _ => None,
                    }
                } else {
                    None
                },
                _ => None,
            },
            _ => None,
        },
        _ => None,
    }
}

/// The message and the statements of a test.
pub open spec fn test_parts(test: Option<Test<'_>>) -> Option<(String, Vec<Stmt>)> {
    match test {
        Some(test) => Some((*test.it_message, *test.stmts)),
        None => None,
    }
}

/// The test that a statement is, if it is one.
pub fn is_it_call_stmt(stmt: &Stmt) -> (test: Option<Test<'_>>)
    ensures
        test_parts(test) == match *stmt {
            Stmt::Expr(stmt) => it_call(*stmt.expr),
            _ => None,
        },
{
    if let Stmt::Expr(stmt) = stmt {
        is_it_call_expr(&stmt.expr)
    } else {
        None
    }
}

/// The test that an expression is, if it is one.
pub fn is_it_call_expr(expr: &Expr) -> (test: Option<Test<'_>>)
    ensures
        test_parts(test) == it_call(*expr),
{
    if let Expr::Call(call) = expr {
        if let Callee::Expr(callee) = &call.callee {
            if let Expr::Ident(ident) = &**callee {
                if ident.sym == "it".to_owned() && call.args.len() == 2 {
                    if let Expr::Lit(Lit::Str(str)) = &call.args[0] {
                        if let Expr::Arrow(arrow) = &call.args[1] {
                            if let BlockStmtOrExpr::BlockStmt(block) = &*arrow.body {
                                return Some(
                                    Test { it_message: &str.value, stmts: &block.stmts },
                                );
                            }
                        }
                    }
                }
            }
        }
    }
    None
}

} // verus!
