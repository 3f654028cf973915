//! What the answers about syntax are, given the syntax.

use vstd::prelude::*;
use vstd::std_specs::cmp::PartialEqSpec;
use vstd::string::*;

use std::convert::Infallible;
use std::rc::Rc;

use swc_core::ecma::ast::Module;

use crate::ts::ast::{
    ArrowExpr, AwaitExpr, BlockStmt, BlockStmtOrExpr, CallExpr, Callee, Expr, ExprStmt, Ident, Lit,
    MemberExpr, MemberProp, Node, Stmt, Str,
};
use crate::ts::inner::Inner;
use crate::ts::it_call;
use crate::ts::nodes::{MaybeNamed, Named, SourceMapped, Spanned, Test};
use crate::ts::span::{ByteSpan, SourceFile, SourceText, Span};
use crate::ts::swc;
use crate::ts::syntax::{File, Storage};
use crate::warn::Error;

verus! {

/// Every call of `it` with a string and an arrow function whose body is a block is a test, with that
/// string as its message and all statements of that block, however many there are and whatever they
/// and the rest of the syntax are. So is the statement that such a call is.
pub proof fn law_call_of_it_is_a_test(
    expr: Box<Expr>,
    stmt: ExprStmt,
    call: CallExpr,
    callee: Box<Expr>,
    ident: Ident,
    str: Str,
    arrow: ArrowExpr,
    block: BlockStmt,
    test: Option<Test<'_>>,
)
    requires
        *expr == Expr::Call(call),
        call.callee == Callee::Expr(callee),
        *callee == Expr::Ident(ident),
        ident.sym@ == "it"@,
        call.args@.len() == 2,
        call.args@[0] == Expr::Lit(Lit::Str(str)),
        call.args@[1] == Expr::Arrow(arrow),
        *arrow.body == BlockStmtOrExpr::BlockStmt(block),
        ({
            ||| call_ensures(it_call::is_it_call_expr, (&*expr,), test)
            ||| stmt.expr == expr && call_ensures(
                it_call::is_it_call_stmt,
                (&Stmt::Expr(stmt),),
                test,
            )
        }),
    ensures
        test is Some,
        test->0.it_message@ == str.value@,
        test->0.stmts@ == block.stmts@,
{
}

/// Nothing else is a test: not what is no call, nor a call of what is no identifier or of another
/// one, nor a call with another number of arguments or other arguments.
pub proof fn law_nothing_else_is_a_test(expr: Expr, test: Option<Test<'_>>)
    requires
        call_ensures(it_call::is_it_call_expr, (&expr,), test),
        test is Some,
    ensures
        expr is Call,
        expr->Call_0.callee is Expr,
        *expr->Call_0.callee->Expr_0 is Ident,
        (*expr->Call_0.callee->Expr_0)->Ident_0.sym@ == "it"@,
        expr->Call_0.args@.len() == 2,
        expr->Call_0.args@[0] is Lit,
        expr->Call_0.args@[0]->Lit_0 is Str,
        expr->Call_0.args@[1] is Arrow,
        *expr->Call_0.args@[1]->Arrow_0.body is BlockStmt,
        test->0.it_message@ == expr->Call_0.args@[0]->Lit_0->Str_0.value@,
        test->0.stmts@ == (*expr->Call_0.args@[1]->Arrow_0.body)->BlockStmt_0.stmts@,
{
}

/// A statement is a test exactly if it is an expression that is one, and it is the same test.
pub proof fn law_statement_is_the_test_that_its_expression_is(
    stmt: Stmt,
    expr: Expr,
    stmt_test: Option<Test<'_>>,
    expr_test: Option<Test<'_>>,
)
    requires
        call_ensures(it_call::is_it_call_stmt, (&stmt,), stmt_test),
        call_ensures(it_call::is_it_call_expr, (&expr,), expr_test),
    ensures
        stmt !is Expr ==> stmt_test is None,
        stmt is Expr && *stmt->Expr_0.expr == expr ==> {
            &&& stmt_test is Some <==> expr_test is Some
            &&& stmt_test is Some ==> stmt_test->0.it_message@ == expr_test->0.it_message@
                && stmt_test->0.stmts@ == expr_test->0.stmts@
        },
{
}

/// An expression is named exactly if it is an identifier, and by all of it.
pub proof fn law_identifier_is_named(expr: SourceMapped<'_, Expr>, name: Option<String>)
    requires
        call_ensures(<SourceMapped<'_, Expr> as MaybeNamed>::name, (&expr,), name),
    ensures
        match *expr.node {
            Expr::Ident(ident) => name matches Some(name) && name@ == ident.sym@,
            _ => name is None,
        },
{
}

/// A member is named exactly if it is accessed by an identifier, and by all of it.
pub proof fn law_member_is_named(member: SourceMapped<'_, MemberExpr>, name: Option<String>)
    requires
        call_ensures(<SourceMapped<'_, MemberExpr> as MaybeNamed>::name, (&member,), name),
    ensures
        match member.node.prop {
            MemberProp::Ident(ident) => name matches Some(name) && name@ == ident.sym@,
            MemberProp::PrivateName => name is None,
            MemberProp::Computed => name is None,
        },
{
}

/// A call is named exactly if what is called is an identifier, and by all of it.
pub proof fn law_call_is_named(call: SourceMapped<'_, CallExpr>, name: Option<String>)
    requires
        call_ensures(<SourceMapped<'_, CallExpr> as MaybeNamed>::name, (&call,), name),
    ensures
        match call.node.callee {
            Callee::Expr(callee) => match *callee {
                Expr::Ident(ident) => name matches Some(name) && name@ == ident.sym@,
                _ => name is None,
            },
            _ => name is None,
        },
{
}

/// A test is named by its whole message.
pub proof fn law_test_is_named_by_its_message(test: Test<'_>, name: String)
    requires
        call_ensures(<Test<'_> as Named>::name, (&test,), name),
    ensures
        name@ == test.it_message@,
{
}

/// A statement takes up its own span, whatever its kind.
pub proof fn law_statement_takes_up_its_span(stmt: Stmt, span: ByteSpan)
    requires
        call_ensures(<Stmt as Node>::byte_span, (&stmt,), span),
    ensures
        span == match stmt {
            Stmt::Expr(stmt) => stmt.span,
            Stmt::Break(span) => span,
            Stmt::Continue(span) => span,
            Stmt::Return(span) => span,
            Stmt::Throw(span) => span,
            Stmt::Decl(span) => span,
            Stmt::Other(span) => span,
        },
{
}

/// An expression takes up its own span, whatever its kind.
pub proof fn law_expression_takes_up_its_span(expr: Expr, span: ByteSpan)
    requires
        call_ensures(<Expr as Node>::byte_span, (&expr,), span),
    ensures
        span == match expr {
            Expr::Ident(ident) => ident.span,
            Expr::Lit(Lit::Str(str)) => str.span,
            Expr::Lit(Lit::Other(span)) => span,
            Expr::Call(call) => call.span,
            Expr::Member(member) => member.span,
            Expr::Await(await_) => await_.span,
            Expr::Arrow(arrow) => arrow.span,
            Expr::Invalid(span) => span,
            Expr::Other(span) => span,
        },
{
}

/// A call or a member takes up the span that it takes up as an expression.
pub proof fn law_call_and_member_take_up_their_span(
    call: CallExpr,
    call_span: ByteSpan,
    member: MemberExpr,
    member_span: ByteSpan,
)
    requires
        call_ensures(<CallExpr as Node>::byte_span, (&call,), call_span),
        call_ensures(<MemberExpr as Node>::byte_span, (&member,), member_span),
    ensures
        call_span == call.span,
        member_span == member.span,
{
}

/// The span of a piece of syntax is that of the bytes which it takes up, in lines and columns of the
/// file that was asked about.
pub proof fn law_span_is_that_of_the_bytes<'ast, T: Node>(
    syntax: SourceMapped<'ast, T>,
    source_file: &SourceFile,
    span: Span,
    bytes: ByteSpan,
    bytes_span: Span,
)
    requires
        call_ensures(<SourceMapped<'ast, T> as Spanned>::span, (&syntax, source_file), span),
        call_ensures(T::byte_span, (syntax.node,), bytes),
        call_ensures(
            ByteSpan::to_internal_span,
            (&bytes, &**syntax.source_map, source_file),
            bytes_span,
        ),
    ensures
        span.source_file.path@ == source_file.path@,
        span.start.line == bytes_span.start.line,
        span.start.column == bytes_span.start.column,
        span.end.line == bytes_span.end.line,
        span.end.column == bytes_span.end.column,
{
}

/// Every piece of syntax has a span whose bytes start and end with characters of the text.
pub proof fn law_syntax_within_the_text_has_a_span<'ast, T: Node>(
    syntax: SourceMapped<'ast, T>,
    source_file: &SourceFile,
    bytes: ByteSpan,
)
    requires
        call_ensures(T::byte_span, (syntax.node,), bytes),
        syntax.source_map.wf(),
        syntax.source_map.start <= bytes.lo,
        syntax.source_map.start <= bytes.hi,
        syntax.source_map.is_boundary(bytes.lo),
        syntax.source_map.is_boundary(bytes.hi),
    ensures
        call_requires(<SourceMapped<'ast, T> as Spanned>::span, (&syntax, source_file)),
{
}

/// Whether two pieces of syntax are equal depends on the syntax alone, and not on the texts that they
/// come from. A copy is the same syntax of the same text.
pub proof fn law_equality_is_that_of_the_syntax<'ast, T: PartialEq>(
    left: SourceMapped<'ast, T>,
    right: SourceMapped<'ast, T>,
    equal: bool,
    nodes_equal: bool,
    copy: SourceMapped<'ast, T>,
)
    requires
        T::obeys_eq_spec(),
        call_ensures(<SourceMapped<'ast, T> as PartialEq>::eq, (&left, &right), equal),
        call_ensures(T::eq, (left.node, right.node), nodes_equal),
        call_ensures(<SourceMapped<'ast, T> as Clone>::clone, (&left,), copy),
    ensures
        equal == nodes_equal,
        copy.node == left.node,
        copy.source_map == left.source_map,
{
}

/// The statements of a test are all of them, each at its place, together with the text at hand.
pub proof fn law_all_statements_of_a_test<'ast, P, E>(
    inner: &Inner<P, E>,
    storage: &Storage<'ast>,
    test: Test<'ast>,
    statements: Vec<SourceMapped<'ast, Stmt>>,
)
    requires
        call_ensures(Inner::<P, E>::test_statements, (inner, storage, test), statements),
    ensures
        statements@.len() == test.stmts@.len(),
        forall|i: int|
            0 <= i < test.stmts@.len() ==> (#[trigger] statements@[i]).node == &test.stmts@[i]
                && statements@[i].source_map == storage.source_map,
{
}

/// Of statements, all can be removed; some consist of an expression, which is handed out with the
/// text at hand; four kinds leave what surrounds them; and declarations are a kind of their own.
pub proof fn law_kinds_of_statements<'ast, P, E>(
    inner: &Inner<P, E>,
    storage: &Storage<'ast>,
    statement: SourceMapped<'ast, Stmt>,
    removable: bool,
    expression: Option<SourceMapped<'ast, Expr>>,
    control: bool,
    declaration: bool,
)
    requires
        call_ensures(Inner::<P, E>::statement_is_removable, (inner, statement), removable),
        call_ensures(
            Inner::<P, E>::statement_is_expression,
            (inner, storage, statement),
            expression,
        ),
        call_ensures(Inner::<P, E>::statement_is_control, (inner, storage, statement), control),
        call_ensures(
            Inner::<P, E>::statement_is_declaration,
            (inner, storage, statement),
            declaration,
        ),
    ensures
        removable,
        match *statement.node {
            Stmt::Expr(stmt) => {
                &&& expression matches Some(expression) && *expression.node == *stmt.expr
                    && expression.source_map == storage.source_map
                &&& !control && !declaration
            },
            Stmt::Break(_) | Stmt::Continue(_) | Stmt::Return(_) | Stmt::Throw(_) => expression
                is None && control && !declaration,
            Stmt::Decl(_) => expression is None && !control && declaration,
            Stmt::Other(_) => expression is None && !control && !declaration,
        },
{
}

/// An expression is at most one of an `await`, a member and a call, it is handed out as such exactly
/// if it is one, and none is a call of a macro.
pub proof fn law_kinds_of_expressions<'ast, P, E>(
    inner: &Inner<P, E>,
    storage: &Storage<'ast>,
    expression: SourceMapped<'ast, Expr>,
    await_: Option<&'ast AwaitExpr>,
    field: Option<SourceMapped<'ast, MemberExpr>>,
    call: Option<SourceMapped<'ast, CallExpr>>,
    macro_call: Option<Infallible>,
)
    requires
        call_ensures(Inner::<P, E>::expression_is_await, (inner, storage, expression), await_),
        call_ensures(Inner::<P, E>::expression_is_field, (inner, storage, expression), field),
        call_ensures(Inner::<P, E>::expression_is_call, (inner, storage, expression), call),
        call_ensures(
            Inner::<P, E>::expression_is_macro_call,
            (inner, storage, expression),
            macro_call,
        ),
    ensures
        macro_call is None,
        match *expression.node {
            Expr::Await(node) => {
                &&& await_ matches Some(await_) && *await_ == node
                &&& field is None && call is None
            },
            Expr::Member(node) => {
                &&& field matches Some(field) && *field.node == node && field.source_map
                    == storage.source_map
                &&& await_ is None && call is None
            },
            Expr::Call(node) => {
                &&& call matches Some(call) && *call.node == node && call.source_map
                    == storage.source_map
                &&& await_ is None && field is None
            },
            _ => await_ is None && field is None && call is None,
        },
{
}

/// What is awaited, what a member belongs to and what is called are the very expressions in the
/// syntax. What is called is no expression at all if it is `super` or `import`.
pub proof fn law_parts_of_expressions<'ast, P, E>(
    inner: &Inner<P, E>,
    storage: &Storage<'ast>,
    await_: &'ast AwaitExpr,
    arg: SourceMapped<'ast, Expr>,
    field: SourceMapped<'ast, MemberExpr>,
    base: SourceMapped<'ast, Expr>,
    call: SourceMapped<'ast, CallExpr>,
    callee: SourceMapped<'ast, Expr>,
)
    requires
        call_ensures(Inner::<P, E>::await_arg, (inner, storage, await_), arg),
        call_ensures(Inner::<P, E>::field_base, (inner, storage, field), base),
        call_ensures(Inner::<P, E>::call_callee, (inner, storage, call), callee),
    ensures
        *arg.node == *await_.arg,
        arg.source_map == storage.source_map,
        *base.node == *field.node.obj,
        base.source_map == field.source_map,
        match call.node.callee {
            Callee::Expr(expr) => *callee.node == *expr,
            _ => *callee.node is Invalid,
        },
        callee.source_map == call.source_map,
{
}

/// A call has the name of its callee.
pub proof fn law_callee_has_the_name_of_the_call<'ast, P, E>(
    inner: &Inner<P, E>,
    storage: &Storage<'ast>,
    call: SourceMapped<'ast, CallExpr>,
    callee: SourceMapped<'ast, Expr>,
    call_name: Option<String>,
    callee_name: Option<String>,
)
    requires
        call_ensures(Inner::<P, E>::call_callee, (inner, storage, call), callee),
        call_ensures(<SourceMapped<'_, CallExpr> as MaybeNamed>::name, (&call,), call_name),
        call_ensures(<SourceMapped<'_, Expr> as MaybeNamed>::name, (&callee,), callee_name),
    ensures
        match (call_name, callee_name) {
            (Some(left), Some(right)) => left@ == right@,
            (None, None) => true,
            _ => false,
        },
{
}

/// A text that the parser makes a module of becomes a file with that text and that module. Otherwise
/// the error says what the parser does.
pub proof fn law_parsed_text_becomes_a_file<P, E>(
    inner: &Inner<P, E>,
    source_map: Rc<SourceText>,
    result: Result<File, Error>,
    parsed: Result<Module, String>,
    file: Result<File, Error>,
    storage: Storage<'_>,
)
    requires
        call_ensures(Inner::<P, E>::parse_source_file, (inner, source_map), result),
        call_ensures(File::from_parsed, (source_map, parsed), file),
        file matches Ok(file) ==> call_ensures(
            Inner::<P, E>::storage_from_file,
            (inner, &file),
            storage,
        ),
    ensures
        match swc::parsed_module(
            source_map.text@,
            source_map.start,
            (source_map.start + vstd::utf8::encode_utf8(source_map.text@).len()) as u32,
        ) {
            Ok(module) => result matches Ok(file) && file.module == module && file.source_map
                == source_map,
            Err(message) => result matches Err(error) && error.message@ == message,
        },
        match parsed {
            Ok(module) => file matches Ok(file) && file.module == module && file.source_map
                == source_map && *storage.source_map == source_map,
            Err(message) => file matches Err(error) && error.message == message,
        },
{
}

/// The functions and methods that are left alone are these, in this order. There is no list of
/// macros.
pub proof fn law_what_is_left_alone<P, E>(
    functions: Option<Vec<&'static str>>,
    macros: Option<Vec<&'static str>>,
    methods: Option<Vec<&'static str>>,
)
    requires
        call_ensures(Inner::<P, E>::ignored_functions, (), functions),
        call_ensures(Inner::<P, E>::ignored_macros, (), macros),
        call_ensures(Inner::<P, E>::ignored_methods, (), methods),
    ensures
        functions is Some && functions->0@.len() == 4,
        functions->0@[0]@ == "assert"@ && functions->0@[1]@ == "assert.*"@,
        functions->0@[2]@ == "console.*"@ && functions->0@[3]@ == "expect"@,
        macros is None,
        methods is Some && methods->0@.len() == 2,
        methods->0@[0]@ == "toNumber"@ && methods->0@[1]@ == "toString"@,
{
    let names = functions->0@.map_values(|name: &'static str| name@);
    assert(names.len() == 4);
    assert(names[0] == functions->0@[0]@ && names[1] == functions->0@[1]@);
    assert(names[2] == functions->0@[2]@ && names[3] == functions->0@[3]@);
    let names = methods->0@.map_values(|name: &'static str| name@);
    assert(names.len() == 2);
    assert(names[0] == methods->0@[0]@ && names[1] == methods->0@[1]@);
}

} // verus!
