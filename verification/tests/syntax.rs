use std::rc::Rc;

use swc_core::ecma::ast::ModuleItem;

use necessist_ts::ts::assoc::AssocMap;
use necessist_ts::ts::ast::{
    ArrowExpr, AwaitExpr, BlockStmt, BlockStmtOrExpr, CallExpr, Callee, Expr, ExprStmt, Ident, Lit,
    MemberExpr, MemberProp, Node, Stmt, Str,
};
use necessist_ts::ts::inner::Inner;
use necessist_ts::ts::it_call::{is_it_call_expr, is_it_call_stmt};
use necessist_ts::ts::nodes::{MaybeNamed, Named, SourceMapped, Spanned};
use necessist_ts::ts::span::{to_line_column, ByteSpan, LineColumn, SourceFile, SourceText};
use necessist_ts::ts::syntax::{File, Storage};

fn inner() -> Inner<(), ()> {
    Inner::new(b".".to_vec(), None, ())
}

fn at(lo: u32, hi: u32) -> ByteSpan {
    ByteSpan { lo, hi }
}

fn source(text: &str, start: u32) -> Rc<SourceText> {
    Rc::new(SourceText {
        text: text.to_owned(),
        start,
    })
}

fn ident(name: &str) -> Expr {
    Expr::Ident(Ident {
        span: at(1, 3),
        sym: name.to_owned(),
    })
}

fn string(value: &str) -> Expr {
    Expr::Lit(Lit::Str(Str {
        span: at(4, 6),
        value: value.to_owned(),
    }))
}

fn arrow(body: BlockStmtOrExpr) -> Expr {
    Expr::Arrow(ArrowExpr {
        span: at(7, 9),
        body: Box::new(body),
    })
}

fn block(stmts: Vec<Stmt>) -> BlockStmtOrExpr {
    BlockStmtOrExpr::BlockStmt(BlockStmt {
        span: at(8, 9),
        stmts,
    })
}

fn call(callee: Callee, args: Vec<Expr>) -> CallExpr {
    CallExpr {
        span: at(1, 9),
        callee,
        args,
    }
}

fn call_of(name: &str, args: Vec<Expr>) -> Expr {
    Expr::Call(call(Callee::Expr(Box::new(ident(name))), args))
}

fn stmt(expr: Expr) -> Stmt {
    Stmt::Expr(ExprStmt {
        span: at(1, 10),
        expr: Box::new(expr),
    })
}

fn member(prop: MemberProp) -> MemberExpr {
    MemberExpr {
        span: at(1, 9),
        obj: Box::new(ident("console")),
        prop,
    }
}

#[test]
fn call_of_it_is_a_test() {
    let stmts = || vec![stmt(ident("x")), Stmt::Return(at(5, 6))];
    let statement = stmt(call_of("it", vec![string("works"), arrow(block(stmts()))]));
    let test = is_it_call_stmt(&statement).unwrap();
    assert_eq!(test.it_message, "works");
    assert_eq!(*test.stmts, stmts());
    assert_eq!(test.name(), "works");

    let source_map = source("x", 1);
    let storage = Storage {
        source_map: &source_map,
    };
    let statements = inner().test_statements(&storage, test);
    assert_eq!(statements.len(), 2);
    assert_eq!(*statements[0].node, stmts()[0]);
    assert_eq!(*statements[1].node, stmts()[1]);
    assert!(Rc::ptr_eq(statements[1].source_map, &source_map));
}

#[test]
fn other_expressions_are_no_tests() {
    let body = || arrow(block(vec![]));
    assert!(is_it_call_expr(&call_of("it", vec![string("a"), body()])).is_some());
    for expr in [
        ident("it"),
        call_of("describe", vec![string("a"), body()]),
        call_of("it", vec![string("a")]),
        call_of("it", vec![string("a"), body(), body()]),
        call_of("it", vec![ident("a"), body()]),
        call_of("it", vec![Expr::Lit(Lit::Other(at(1, 2))), body()]),
        call_of("it", vec![string("a"), ident("f")]),
        call_of(
            "it",
            vec![
                string("a"),
                arrow(BlockStmtOrExpr::Expr(Box::new(ident("f")))),
            ],
        ),
        Expr::Call(call(Callee::Super, vec![string("a"), body()])),
        Expr::Call(call(
            Callee::Expr(Box::new(Expr::Member(member(MemberProp::Computed)))),
            vec![string("a"), body()],
        )),
    ] {
        assert!(is_it_call_expr(&expr).is_none());
        assert!(is_it_call_stmt(&stmt(expr)).is_none());
    }
    assert!(is_it_call_stmt(&Stmt::Decl(at(1, 2))).is_none());
}

#[test]
fn statements() {
    let source_map = source("x", 1);
    let storage = Storage {
        source_map: &source_map,
    };
    let expression = stmt(ident("x"));
    for (node, is_expression, is_control, is_declaration) in [
        (&expression, true, false, false),
        (&Stmt::Break(at(1, 2)), false, true, false),
        (&Stmt::Continue(at(1, 2)), false, true, false),
        (&Stmt::Return(at(1, 2)), false, true, false),
        (&Stmt::Throw(at(1, 2)), false, true, false),
        (&Stmt::Decl(at(1, 2)), false, false, true),
        (&Stmt::Other(at(1, 2)), false, false, false),
    ] {
        let statement = SourceMapped {
            source_map: &source_map,
            node,
        };
        assert!(inner().statement_is_removable(statement));
        assert_eq!(
            inner().statement_is_expression(&storage, statement).is_some(),
            is_expression
        );
        assert_eq!(
            inner().statement_is_control(&storage, statement),
            is_control
        );
        assert_eq!(
            inner().statement_is_declaration(&storage, statement),
            is_declaration
        );
    }
    let statement = SourceMapped {
        source_map: &source_map,
        node: &expression,
    };
    let expression = inner().statement_is_expression(&storage, statement).unwrap();
    assert_eq!(*expression.node, ident("x"));
}

#[test]
fn expressions() {
    let source_map = source("x", 1);
    let storage = Storage {
        source_map: &source_map,
    };
    let nodes = [
        Expr::Await(AwaitExpr {
            span: at(1, 9),
            arg: Box::new(ident("x")),
        }),
        Expr::Member(member(MemberProp::Ident(Ident {
            span: at(8, 9),
            sym: "log".to_owned(),
        }))),
        call_of("f", vec![]),
        ident("x"),
        string("x"),
        Expr::Invalid(at(0, 0)),
        Expr::Other(at(1, 2)),
    ];
    for (i, node) in nodes.iter().enumerate() {
        let expression = SourceMapped {
            source_map: &source_map,
            node,
        };
        assert_eq!(
            inner().expression_is_await(&storage, expression).is_some(),
            i == 0
        );
        assert_eq!(
            inner().expression_is_field(&storage, expression).is_some(),
            i == 1
        );
        assert_eq!(
            inner().expression_is_call(&storage, expression).is_some(),
            i == 2
        );
        assert_eq!(expression.name().is_some(), i == 3);
        assert!(inner()
            .expression_is_macro_call(&storage, expression)
            .is_none());
    }
    let mapped = |i: usize| SourceMapped {
        source_map: &source_map,
        node: &nodes[i],
    };
    let await_ = inner().expression_is_await(&storage, mapped(0)).unwrap();
    assert_eq!(*inner().await_arg(&storage, await_).node, ident("x"));
    let field = inner().expression_is_field(&storage, mapped(1)).unwrap();
    assert_eq!(*inner().field_base(&storage, field).node, ident("console"));
    assert_eq!(field.name().unwrap(), "log");
    let call = inner().expression_is_call(&storage, mapped(2)).unwrap();
    let callee = inner().call_callee(&storage, call);
    assert_eq!(*callee.node, ident("f"));
    assert_eq!(call.name(), callee.name());
    assert_eq!(mapped(3).name().unwrap(), "x");
}

#[test]
fn names() {
    let source_map = source("x", 1);
    for prop in [MemberProp::PrivateName, MemberProp::Computed] {
        let node = member(prop);
        let field = SourceMapped {
            source_map: &source_map,
            node: &node,
        };
        assert!(field.name().is_none());
    }
    for callee in [
        Callee::Super,
        Callee::Import,
        Callee::Expr(Box::new(string("f"))),
    ] {
        let node = call(callee, vec![]);
        let call = SourceMapped {
            source_map: &source_map,
            node: &node,
        };
        assert!(call.name().is_none());
    }
}

#[test]
fn callee_that_is_no_expression() {
    let source_map = source("x", 1);
    let storage = Storage {
        source_map: &source_map,
    };
    for callee in [Callee::Super, Callee::Import] {
        let node = call(callee, vec![]);
        let call = SourceMapped {
            source_map: &source_map,
            node: &node,
        };
        assert_eq!(
            *inner().call_callee(&storage, call).node,
            Expr::Invalid(at(0, 0))
        );
    }
}

#[test]
fn nodes_are_equal_wherever_they_come_from() {
    let (left, right) = (source("x", 1), source("y", 9));
    let (x, y) = (ident("x"), ident("y"));
    let mapped = SourceMapped {
        source_map: &left,
        node: &x,
    };
    assert!(mapped
        == SourceMapped {
            source_map: &right,
            node: &x
        });
    assert!(mapped
        != SourceMapped {
            source_map: &left,
            node: &y
        });
    let copy = mapped.clone();
    assert!(copy == mapped);
}

#[test]
fn byte_spans() {
    assert_eq!(stmt(ident("x")).byte_span(), at(1, 10));
    assert_eq!(Stmt::Throw(at(2, 3)).byte_span(), at(2, 3));
    assert_eq!(ident("x").byte_span(), at(1, 3));
    assert_eq!(string("x").byte_span(), at(4, 6));
    assert_eq!(call_of("f", vec![]).byte_span(), at(1, 9));
    assert_eq!(member(MemberProp::Computed).byte_span(), at(1, 9));
}

#[test]
fn lines_and_columns() {
    let source_map = source("ab\ncd\r\n\u{1f600}é;\n", 100);
    for (position, line, column) in [
        (100, 1, 0),
        (102, 1, 2),
        (103, 2, 0),
        (105, 2, 2),
        (107, 3, 0),
        (111, 3, 2),
        (113, 3, 3),
        (115, 3, 5),
    ] {
        assert_eq!(
            to_line_column(position, &source_map),
            LineColumn { line, column }
        );
    }
}

#[test]
fn carriage_returns_break_lines() {
    let source_map = source("a\rb\r\n\nc\r", 1);
    for (position, line, column) in [
        (1, 1, 0),
        (2, 1, 1),
        (3, 2, 0),
        (4, 2, 1),
        (5, 2, 2),
        (6, 3, 0),
        (7, 4, 0),
        (8, 4, 1),
        (9, 4, 2),
    ] {
        assert_eq!(
            to_line_column(position, &source_map),
            LineColumn { line, column }
        );
    }
}

#[test]
fn lone_line_breaks() {
    for text in ["\n", "\r"] {
        let source_map = source(text, 1);
        assert_eq!(
            to_line_column(1, &source_map),
            LineColumn { line: 1, column: 0 }
        );
        assert_eq!(
            to_line_column(2, &source_map),
            LineColumn { line: 1, column: 1 }
        );
    }
}

#[test]
fn empty_text_has_no_line() {
    assert_eq!(
        to_line_column(8, &source("", 8)),
        LineColumn { line: 0, column: 0 }
    );
}

#[test]
fn line_columns_follow_the_text() {
    let text = "x\u{2028}y\u{10ffff}\r\n\r\r\n\u{17d8}\tz\n\n";
    let source_map = source(text, 3);
    let mut previous = (0, 0);
    for offset in 0..=text.len() {
        if text.is_char_boundary(offset) {
            let position = to_line_column(3 + offset as u32, &source_map);
            let position = (position.line, position.column);
            assert!(previous < position);
            previous = position;
        }
    }
    assert_eq!(previous, (5, 1));
}

#[test]
fn byte_order_mark_counts_as_a_character() {
    let source_map = source("\u{feff}ab", 1);
    assert_eq!(
        to_line_column(5, &source_map),
        LineColumn { line: 1, column: 2 }
    );
}

#[test]
fn span_of_a_statement() {
    let source_map = source("f();\ng();\n", 20);
    let source_file = SourceFile {
        path: b"a.ts".to_vec(),
    };
    let node = Stmt::Other(at(25, 29));
    let statement = SourceMapped {
        source_map: &source_map,
        node: &node,
    };
    let span = statement.span(&source_file);
    assert_eq!(span.source_file, source_file);
    assert_eq!(span.start, LineColumn { line: 2, column: 0 });
    assert_eq!(span.end, LineColumn { line: 2, column: 4 });
}

#[test]
fn parsed_file() {
    let source_map = source(
        "const n: number = 1;\nit(\"works\", () => { f(n as any); });\n",
        7,
    );
    let file = inner().parse_source_file(source_map.clone()).ok().unwrap();
    assert_eq!(file.module.span.lo.0, 7);
    assert_eq!(file.module.body.len(), 2);
    assert!(matches!(file.module.body[1], ModuleItem::Stmt(_)));
    let storage = inner().storage_from_file(&file);
    assert!(Rc::ptr_eq(storage.source_map, &source_map));
}

#[test]
fn parse_error() {
    let error = inner().parse_source_file(source("it(", 1)).err().unwrap();
    assert!(error.message.starts_with("Error { error: ("));
}

#[test]
fn file_from_what_was_parsed() {
    let source_map = source("f();", 1);
    let module = inner()
        .parse_source_file(source_map.clone())
        .ok()
        .unwrap()
        .module;
    let file = File::from_parsed(source_map.clone(), Ok(module)).ok().unwrap();
    assert_eq!(file.module.body.len(), 1);
    let error = File::from_parsed(source_map, Err("bad".to_owned())).err().unwrap();
    assert_eq!(error.message, "bad");
}

#[test]
fn ignored_names() {
    assert_eq!(
        Inner::<(), ()>::ignored_functions().unwrap(),
        ["assert", "assert.*", "console.*", "expect"]
    );
    assert!(Inner::<(), ()>::ignored_macros().is_none());
    assert_eq!(
        Inner::<(), ()>::ignored_methods().unwrap(),
        ["toNumber", "toString"]
    );
}

#[test]
fn small_maps() {
    let mut map: AssocMap<String, u8> = AssocMap::new();
    assert!(!map.contains_key(&"a".to_owned()));
    map.insert("a".to_owned(), 1);
    map.insert("b".to_owned(), 2);
    map.insert("a".to_owned(), 3);
    assert_eq!(map.get(&"a".to_owned()), Some(&3));
    *map.get_mut(&"b".to_owned()).unwrap() = 4;
    assert_eq!(map.get(&"b".to_owned()), Some(&4));
    assert!(map.get_mut(&"c".to_owned()).is_none());
    assert_eq!(map.get(&"c".to_owned()), None);
}

#[test]
fn texts_that_stop_the_parser() {
    for text in [
        "0x_1n",
        "a = 0X_fFn;",
        "0o_7n",
        "0O__7_n",
        "0b_1n",
        "0B_0number",
        "é0x0b_1n",
    ] {
        assert!(source(text, 1).stops_parser(), "{text}");
    }
}

#[test]
fn texts_that_do_not_stop_the_parser() {
    for text in [
        "",
        "0x_",
        "0x_1",
        "0x_1 n",
        "0x_n",
        "0x__n",
        "0x1_0n",
        "0x_gn",
        "0o_8n",
        "0b_2n",
        "0b_an",
        "0_1n",
        "1x_1n",
        "0c_1n",
        "0xfn; 0o7n; 0b1n; 10n",
    ] {
        let source_map = source(text, 1);
        assert!(!source_map.stops_parser(), "{text}");
        let _ = inner().parse_source_file(source_map);
    }
}

#[test]
fn escape_sequences_that_stop_the_parser() {
    for text in [
        "const x = !`\\1`;",
        "while (!`\\1`) {}",
        "f(!`\\u`)",
        "catch {`\\1`}",
        "`\\00`",
        "`\\x4`",
        "`\\x4g`",
        "`\\u004`",
        "`\\u{}`",
        "`\\u{110000}`",
        "`\\u{41`",
        "`\\u{000d800}`",
        "`${a}\\\\\\7`",
        "String.raw`\\u`",
    ] {
        assert!(source(text, 1).stops_parser(), "{text}");
    }
    let zeros = "0".repeat(253);
    assert!(source(&format!("`\\u{{{zeros}041}}`"), 1).stops_parser());
}

#[test]
fn escape_sequences_that_do_not_stop_the_parser() {
    for text in [
        "!'\\1'",
        "!`\\\\1`",
        "!`\\0`",
        "!`\\08`",
        "!`\\8\\n\\`\\${`",
        "!`\\x41\\u0041\\ud800`",
        "!`\\u{0}\\u{10FfFf}\\u{d800}\\u{0000041}`",
        "!`\\",
        "'\\1' + `a`",
    ] {
        let source_map = source(text, 1);
        assert!(!source_map.stops_parser(), "{text}");
        let _ = inner().parse_source_file(source_map);
    }
    let zeros = "0".repeat(253);
    let source_map = source(&format!("!`\\u{{{zeros}41}}`"), 1);
    assert!(!source_map.stops_parser());
    assert!(inner().parse_source_file(source_map).is_ok());
}

#[test]
fn normal_paths() {
    for (path, normal) in [
        ("", true),
        ("/", true),
        (".", true),
        ("a", true),
        ("./a", true),
        ("/a/b.ts", true),
        ("a/.b/c.", true),
        ("a/../b", true),
        ("a/...", true),
        ("//", false),
        ("//a", false),
        ("a//b.ts", false),
        ("a/", false),
        ("./", false),
        ("a/.", false),
        ("a/./b", false),
        ("/.", false),
    ] {
        let source_file = SourceFile {
            path: path.as_bytes().to_vec(),
        };
        assert_eq!(source_file.is_normal(), normal, "{path}");
    }
}
