//! What a backend tells about the syntax of a source file.

use vstd::prelude::*;
use vstd::string::*;

use std::convert::Infallible;
use std::rc::Rc;

use swc_core::ecma::ast::Module;

use crate::ts::ast::{AwaitExpr, CallExpr, Callee, Expr, MemberExpr, Stmt};
use crate::ts::bigint;
use crate::ts::inner::Inner;
use crate::ts::it_call;
use crate::ts::nodes::{MaybeNamed, SourceMapped, Test};
use crate::ts::span::{ByteSpan, SourceText};
use crate::ts::swc;
use crate::ts::template;
use crate::warn::Error;

verus! {

/// The types by which a framework refers to syntax.
pub trait AbstractTypes {
    type Storage<'ast>;

    type File;

    type Test<'ast>;

    type Statement<'ast>;

    type Expression<'ast>;

    type Await<'ast>;

    type Field<'ast>;

    type Call<'ast>;

    type MacroCall<'ast>;
}

/// The types for TypeScript.
pub struct Types;

impl AbstractTypes for Types {
    type Storage<'ast> = Storage<'ast>;

    type File = File;

    type Test<'ast> = Test<'ast>;

    type Statement<'ast> = SourceMapped<'ast, Stmt>;

    type Expression<'ast> = SourceMapped<'ast, Expr>;

    type Await<'ast> = &'ast AwaitExpr;

    type Field<'ast> = SourceMapped<'ast, MemberExpr>;

    type Call<'ast> = SourceMapped<'ast, CallExpr>;

    type MacroCall<'ast> = Infallible;
}

/// A source file that has been parsed.
pub struct File {
    pub source_map: Rc<SourceText>,
    pub module: Module,
}

impl File {
    /// The file with this text, given what the parser made of it.
    pub fn from_parsed(source_map: Rc<SourceText>, parsed: Result<Module, String>) -> (result:
        Result<File, Error>)
        ensures
            match parsed {
                Ok(module) => result == Ok::<File, Error>(File { source_map, module }),
                Err(message) => result == Err::<File, Error>(Error { message }),
            },
    {
        match parsed {
            Ok(module) => Ok(File { source_map, module }),
            Err(message) => Err(Error { message }),
        }
    }
}

/// What is at hand while a file is visited.
#[derive(Clone, Copy)]
pub struct Storage<'ast> {
    pub source_map: &'ast Rc<SourceText>,
}

impl<'ast> Storage<'ast> {
    /// What is at hand while `file` is visited.
    pub fn new(file: &'ast File) -> (storage: Storage<'ast>)
        ensures
            *storage.source_map == file.source_map,
    {
        Storage { source_map: &file.source_map }
    }
}

/// What is called; no expression, if it is `super` or `import`.
pub open spec fn callee_expr(call: CallExpr) -> Expr {
    match call.callee {
        Callee::Expr(expr) => *expr,
        _ => Expr::Invalid(ByteSpan { lo: 0, hi: 0 }),
    }
}

/// A call is named exactly as what is called.
pub proof fn law_call_is_named_as_its_callee(source_map: &Rc<SourceText>, call: CallExpr)
    ensures
        (SourceMapped { source_map, node: &call }).name_spec() == (SourceMapped {
            source_map,
            node: &callee_expr(call),
        }).name_spec(),
{
}

/// A test is a call that is named `it` and has two arguments.
pub proof fn law_test_is_call_of_it(source_map: &Rc<SourceText>, expr: Expr)
    requires
        it_call::it_call(expr) is Some,
    ensures
        expr matches Expr::Call(call) && call.args@.len() == 2 && (SourceMapped {
            source_map,
            node: &call,
        }).name_spec() == Some("it"@),
{
}

impl<P, E> Inner<P, E> {
    /// Parses the text of a source file, on which the parser must not stop: see
    /// [`SourceText::stops_parser`].
    ///
    /// # Errors
    ///
    /// Returns the parser's error if there is one.
    pub fn parse_source_file(&self, source_map: Rc<SourceText>) -> (result: Result<File, Error>)
        requires
            source_map.wf(),
            !bigint::has_separated_bigint(source_map.text@),
            !template::has_bad_template_escape(source_map.text@),
        ensures
            match swc::parsed_module(
                source_map.text@,
                source_map.start,
                (source_map.start + vstd::utf8::encode_utf8(source_map.text@).len()) as u32,
            ) {
                Ok(module) => result == Ok::<File, Error>(File { source_map, module }),
                Err(error) => result matches Err(e) && e.message@ == error,
            },
    {
        let end: u32 = source_map.start + source_map.text.as_str().len() as u32;
        let parsed = swc::parse_typescript_module(
            source_map.text.as_str(),
            source_map.start,
            end,
        );
        File::from_parsed(source_map, parsed)
    }

    pub fn storage_from_file<'ast>(&self, file: &'ast File) -> (storage: Storage<'ast>)
        ensures
            *storage.source_map == file.source_map,
    {
        Storage::new(file)
    }

    /// The statements of a test, in order.
    pub fn test_statements<'ast>(&self, storage: &Storage<'ast>, test: Test<'ast>) -> (statements:
        Vec<SourceMapped<'ast, Stmt>>)
        ensures
            statements@ == test.stmts@.map_values(
                |stmt: Stmt|
                    SourceMapped::<'ast, Stmt> { source_map: storage.source_map, node: &stmt },
            ),
    {
        let mut statements: Vec<SourceMapped<'ast, Stmt>> = Vec::new();
        for i in 0..test.stmts.len()
            invariant
                statements@.len() == i,
                forall|j: int|
                    0 <= j < i ==> statements@[j] == (SourceMapped::<'ast, Stmt> {
                        source_map: storage.source_map,
                        node: &test.stmts@[j],
                    }),
        {
            statements.push(
                SourceMapped { source_map: storage.source_map, node: &test.stmts[i] },
            );
        }
        assert(statements@ =~= test.stmts@.map_values(
            |stmt: Stmt|
                SourceMapped::<'ast, Stmt> { source_map: storage.source_map, node: &stmt },
        ));
        statements
    }

    /// Every statement can be removed.
    pub fn statement_is_removable(&self, _statement: SourceMapped<'_, Stmt>) -> (removable: bool)
        ensures
            removable,
    {
        true
    }

    /// The expression that a statement consists of, if it does.
    pub fn statement_is_expression<'ast>(
        &self,
        storage: &Storage<'ast>,
        statement: SourceMapped<'ast, Stmt>,
    ) -> (expression: Option<SourceMapped<'ast, Expr>>)
        ensures
            expression == match *statement.node {
                Stmt::Expr(stmt) => Some(
                    SourceMapped::<'ast, Expr> {
                        source_map: storage.source_map,
                        node: &*stmt.expr,
                    },
                ),
                _ => None,
            },
    {
        if let Stmt::Expr(stmt) = statement.node {
            Some(SourceMapped { source_map: storage.source_map, node: &stmt.expr })
        } else {
            None
        }
    }

    /// Whether a statement leaves what surrounds it.
    pub fn statement_is_control<'ast>(
        &self,
        _storage: &Storage<'ast>,
        statement: SourceMapped<'ast, Stmt>,
    ) -> (control: bool)
        ensures
            control == (statement.node is Break || statement.node is Continue
                || statement.node is Return || statement.node is Throw),
    {
        matches!(
            statement.node,
            Stmt::Break(_) | Stmt::Continue(_) | Stmt::Return(_) | Stmt::Throw(_)
        )
    }

    /// Whether a statement is a declaration.
    pub fn statement_is_declaration<'ast>(
        &self,
        _storage: &Storage<'ast>,
        statement: SourceMapped<'ast, Stmt>,
    ) -> (declaration: bool)
        ensures
            declaration == statement.node is Decl,
    {
        matches!(statement.node, Stmt::Decl(_))
    }

    /// The `await` that an expression is, if it is one.
    pub fn expression_is_await<'ast>(
        &self,
        _storage: &Storage<'ast>,
        expression: SourceMapped<'ast, Expr>,
    ) -> (await_: Option<&'ast AwaitExpr>)
        ensures
            await_ == match *expression.node {
                Expr::Await(await_) => Some(&await_),
                _ => None,
            },
    {
        if let Expr::Await(await_) = expression.node {
            Some(await_)
        } else {
            None
        }
    }

    /// The access to a member that an expression is, if it is one.
    pub fn expression_is_field<'ast>(
        &self,
        storage: &Storage<'ast>,
        expression: SourceMapped<'ast, Expr>,
    ) -> (field: Option<SourceMapped<'ast, MemberExpr>>)
        ensures
            field == match *expression.node {
                Expr::Member(member) => Some(
                    SourceMapped::<'ast, MemberExpr> {
                        source_map: storage.source_map,
                        node: &member,
                    },
                ),
                _ => None,
            },
    {
        if let Expr::Member(member) = expression.node {
            Some(SourceMapped { source_map: storage.source_map, node: member })
        } else {
            None
        }
    }

    /// The call that an expression is, if it is one.
    pub fn expression_is_call<'ast>(
        &self,
        storage: &Storage<'ast>,
        expression: SourceMapped<'ast, Expr>,
    ) -> (call: Option<SourceMapped<'ast, CallExpr>>)
        ensures
            call == match *expression.node {
                Expr::Call(call) => Some(
                    SourceMapped::<'ast, CallExpr> { source_map: storage.source_map, node: &call },
                ),
                _ => None,
            },
    {
        if let Expr::Call(call) = expression.node {
            Some(SourceMapped { source_map: storage.source_map, node: call })
        } else {
            None
        }
    }

    /// There are no macros.
    pub fn expression_is_macro_call<'ast>(
        &self,
        _storage: &Storage<'ast>,
        _expression: SourceMapped<'ast, Expr>,
    ) -> (macro_call: Option<Infallible>)
        ensures
            macro_call is None,
    {
        None
    }

    /// What is awaited.
    pub fn await_arg<'ast>(&self, storage: &Storage<'ast>, await_: &'ast AwaitExpr) -> (arg:
        SourceMapped<'ast, Expr>)
        ensures
            arg == (SourceMapped::<'ast, Expr> {
                source_map: storage.source_map,
                node: &*await_.arg,
            }),
    {
        SourceMapped { source_map: storage.source_map, node: &await_.arg }
    }

    /// What the member belongs to.
    pub fn field_base<'ast>(
        &self,
        _storage: &Storage<'ast>,
        field: SourceMapped<'ast, MemberExpr>,
    ) -> (base: SourceMapped<'ast, Expr>)
        ensures
            base == (SourceMapped::<'ast, Expr> {
                source_map: field.source_map,
                node: &*field.node.obj,
            }),
    {
        SourceMapped { source_map: field.source_map, node: &field.node.obj }
    }

    /// What is called; no expression, if it is `super` or `import`.
    pub fn call_callee<'ast>(
        &self,
        _storage: &Storage<'ast>,
        call: SourceMapped<'ast, CallExpr>,
    ) -> (callee: SourceMapped<'ast, Expr>)
        ensures
            callee.source_map == call.source_map,
            *callee.node == callee_expr(*call.node),
    {
        if let Callee::Expr(expr) = &call.node.callee {
            SourceMapped { source_map: call.source_map, node: expr }
        } else {
            SourceMapped {
                source_map: call.source_map,
                node: &Expr::Invalid(ByteSpan { lo: 0, hi: 0 }),
            }
        }
    }

    /// The functions whose calls are left alone. A final `*` stands for any name.
    pub fn ignored_functions() -> (functions: Option<Vec<&'static str>>)
        ensures
            functions matches Some(functions) && functions@.map_values(|name: &'static str| name@)
                == seq!["assert"@, "assert.*"@, "console.*"@, "expect"@],
    {
        let functions: Vec<&'static str> = vec!["assert", "assert.*", "console.*", "expect"];
        assert(functions@.map_values(|name: &'static str| name@) =~= seq![
            "assert"@,
            "assert.*"@,
            "console.*"@,
            "expect"@,
        ]);
        Some(functions)
    }

    /// Which macro calls to leave alone does not apply: there are no macros.
    pub fn ignored_macros() -> (macros: Option<Vec<&'static str>>)
        ensures
            macros is None,
    {
        None
    }

    /// The methods whose calls are left alone.
    pub fn ignored_methods() -> (methods: Option<Vec<&'static str>>)
        ensures
            methods matches Some(methods) && methods@.map_values(|name: &'static str| name@)
                == seq!["toNumber"@, "toString"@],
    {
        let methods: Vec<&'static str> = vec!["toNumber", "toString"];
        assert(methods@.map_values(|name: &'static str| name@) =~= seq![
            "toNumber"@,
            "toString"@,
        ]);
        Some(methods)
    }
}

} // verus!
