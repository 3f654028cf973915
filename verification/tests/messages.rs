use necessist_ts::emitted::WarningStateMap;
use necessist_ts::ts::inner::Inner;
use necessist_ts::ts::messages::{
    not_found_message, DryRunError, ExecDecision, ItMessageState,
};
use necessist_ts::ts::span::{LineColumn, SourceFile, Span};
use necessist_ts::warn::{Error, LightContext, Opts};
use necessist_ts::warning::Warning;

type Predicate = fn(&[u8]) -> bool;
type Extractor = fn(&[u8]) -> Result<Vec<String>, Error>;

fn lines(stdout: &[u8]) -> Result<Vec<String>, Error> {
    match String::from_utf8(stdout.to_vec()) {
        Ok(text) => Ok(text.lines().map(|line| line.to_owned()).collect()),
        Err(_) => Err(Error {
            message: "no text".to_owned(),
        }),
    }
}

fn no_type_tests(path: &[u8]) -> bool {
    !path.ends_with(b".test-d.ts")
}

fn inner(predicate: Option<Predicate>) -> Inner<Predicate, Extractor> {
    Inner::new(b"test".to_vec(), predicate, lines)
}

fn file(path: &str) -> SourceFile {
    SourceFile {
        path: path.as_bytes().to_vec(),
    }
}

fn span(path: &str) -> Span {
    Span {
        source_file: file(path),
        start: LineColumn { line: 1, column: 2 },
        end: LineColumn { line: 3, column: 4 },
    }
}

fn context(deny: Vec<Warning>, quiet: bool) -> LightContext {
    LightContext {
        opts: Opts {
            allow: vec![],
            deny,
            quiet,
        },
        is_terminal: false,
    }
}

fn is_run(result: &Result<ExecDecision, Error>) -> bool {
    matches!(result, Ok(ExecDecision::Run))
}

fn is_silent_skip(result: &Result<ExecDecision, Error>) -> bool {
    matches!(result, Ok(ExecDecision::Skip(None)))
}

fn skip_line(result: Result<ExecDecision, Error>) -> String {
    match result {
        Ok(ExecDecision::Skip(Some(line))) => line,
        _ => panic!(),
    }
}

#[test]
fn default_state() {
    assert_eq!(ItMessageState::default(), ItMessageState::NotFound);
}

#[test]
fn subdir() {
    assert_eq!(inner(None).subdir(), b"test");
}

#[test]
fn found_tests_are_run() {
    let mut inner = inner(None);
    let mut states = WarningStateMap::new();
    assert!(inner.dry_run(&file("a.ts"), true, b"one\ntwo\none").is_ok());
    for name in ["one", "two", "one"] {
        assert!(is_run(&inner.exec(
            &context(vec![], false),
            &mut states,
            name,
            &span("a.ts"),
            "s"
        )));
    }
}

#[test]
fn user_is_told_once() {
    let mut inner = inner(None);
    let mut states = WarningStateMap::new();
    assert!(inner.dry_run(&file("a.ts"), true, b"one").is_ok());
    assert_eq!(
        skip_line(inner.exec(
            &context(vec![], false),
            &mut states,
            "say \"two\"",
            &span("a.ts"),
            "a.ts:1"
        )),
        "a.ts:1: Warning: `it` message \"say \\\"two\\\"\" was not found during dry run\nSilence this warning with: --allow it-message-not-found"
    );
    for _ in 0..2 {
        assert!(is_silent_skip(&inner.exec(
            &context(vec![], false),
            &mut states,
            "say \"two\"",
            &span("a.ts"),
            "a.ts:1"
        )));
    }
    assert_eq!(
        skip_line(inner.exec(
            &context(vec![], false),
            &mut states,
            "three",
            &span("a.ts"),
            "a.ts:9"
        )),
        "a.ts:9: Warning: `it` message \"three\" was not found during dry run"
    );
}

#[test]
fn quiet_user_is_taken_as_told() {
    let mut inner = inner(None);
    let mut states = WarningStateMap::new();
    assert!(inner.dry_run(&file("a.ts"), true, b"").is_ok());
    assert!(is_silent_skip(&inner.exec(
        &context(vec![], true),
        &mut states,
        "one",
        &span("a.ts"),
        "s"
    )));
    assert!(is_silent_skip(&inner.exec(
        &context(vec![], false),
        &mut states,
        "one",
        &span("a.ts"),
        "s"
    )));
}

#[test]
fn denied_warning_stays_due() {
    let mut inner = inner(None);
    let mut states = WarningStateMap::new();
    assert!(inner.dry_run(&file("a.ts"), true, b"").is_ok());
    for _ in 0..2 {
        assert_eq!(
            inner
                .exec(
                    &context(vec![Warning::ItMessageNotFound], false),
                    &mut states,
                    "one",
                    &span("a.ts"),
                    "s"
                )
                .err()
                .unwrap()
                .message,
            "`it` message \"one\" was not found during dry run"
        );
    }
    assert_eq!(
        skip_line(inner.exec(
            &context(vec![], false),
            &mut states,
            "one",
            &span("a.ts"),
            "s"
        )),
        "s: Warning: `it` message \"one\" was not found during dry run\nSilence this warning with: --allow it-message-not-found"
    );
}

#[test]
fn later_dry_run_adds_messages() {
    let mut inner = inner(None);
    let mut states = WarningStateMap::new();
    assert!(inner.dry_run(&file("a.ts"), true, b"one").is_ok());
    assert!(!is_run(&inner.exec(
        &context(vec![], false),
        &mut states,
        "two",
        &span("a.ts"),
        "s"
    )));
    assert!(inner.dry_run(&file("a.ts"), true, b"two").is_ok());
    for name in ["one", "two"] {
        assert!(is_run(&inner.exec(
            &context(vec![], false),
            &mut states,
            name,
            &span("a.ts"),
            "s"
        )));
    }
}

#[test]
fn files_are_independent() {
    let mut inner = inner(None);
    let mut states = WarningStateMap::new();
    assert!(inner.dry_run(&file("a.ts"), true, b"one").is_ok());
    assert!(inner.dry_run(&file("b.ts"), true, b"two").is_ok());
    assert!(is_run(&inner.exec(
        &context(vec![], false),
        &mut states,
        "one",
        &span("a.ts"),
        "s"
    )));
    assert!(!is_run(&inner.exec(
        &context(vec![], false),
        &mut states,
        "one",
        &span("b.ts"),
        "s"
    )));
}

#[test]
fn failed_command() {
    let mut inner = inner(None);
    assert!(matches!(
        inner.dry_run(&file("a.ts"), false, b"one"),
        Err(DryRunError::CommandFailed)
    ));
    assert!(!inner.is_known(&file("a.ts")));
}

#[test]
fn invalid_output_still_makes_the_file_known() {
    let mut inner = inner(None);
    let mut states = WarningStateMap::new();
    match inner.dry_run(&file("a.ts"), true, b"\xff") {
        Err(DryRunError::OutputInvalid(error)) => assert_eq!(error.message, "no text"),
        _ => panic!(),
    }
    assert!(inner.is_known(&file("a.ts")));
    assert!(!is_run(&inner.exec(
        &context(vec![], false),
        &mut states,
        "one",
        &span("a.ts"),
        "s"
    )));
}

#[test]
fn recorded_messages() {
    let mut inner = inner(None);
    let mut states = WarningStateMap::new();
    assert!(inner
        .record_it_messages(&file("a.ts"), Ok(vec!["one".to_owned()]))
        .is_ok());
    assert!(is_run(&inner.exec_quoted(
        &context(vec![], false),
        &mut states,
        "one",
        "<one>",
        &span("a.ts"),
        "s"
    )));
    assert_eq!(
        skip_line(inner.exec_quoted(
            &context(vec![], false),
            &mut states,
            "two",
            "<two>",
            &span("a.ts"),
            "s"
        )),
        "s: Warning: `it` message <two> was not found during dry run\nSilence this warning with: --allow it-message-not-found"
    );
    assert_eq!(
        not_found_message("<two>"),
        "`it` message <two> was not found during dry run"
    );
}

#[test]
fn prefix_and_suffix() {
    let (prefix, suffix) = inner(None)
        .statement_prefix_and_suffix("0123abcd")
        .ok()
        .unwrap();
    assert_eq!(
        prefix,
        "if (process.env.NECESSIST_REMOVAL != \"0123abcd\") { "
    );
    assert_eq!(suffix, " }");
    let (other, _) = inner(None)
        .statement_prefix_and_suffix("0123abce")
        .ok()
        .unwrap();
    assert_ne!(prefix, other);
}

#[test]
fn directories_are_walked() {
    let inner = inner(Some(no_type_tests));
    assert!(inner.filter_entry(b"test/sub", false, None));
    assert!(inner.filter_entry(b"test/sub.test-d.ts", false, Some(&"ts".to_owned())));
}

#[test]
fn only_scripts_are_parsed() {
    let inner = inner(None);
    for (extension, visited) in [("ts", true), ("js", true), ("tsx", false), ("", false)] {
        assert_eq!(
            inner.filter_entry(b"test/a", true, Some(&extension.to_owned())),
            visited
        );
    }
    assert!(!inner.filter_entry(b"test/a", true, None));
}

#[test]
fn predicate_leaves_out_files() {
    let inner = inner(Some(no_type_tests));
    assert!(inner.filter_entry(b"test/a.test.ts", true, Some(&"ts".to_owned())));
    assert!(!inner.filter_entry(b"test/a.test-d.ts", true, Some(&"ts".to_owned())));
    assert!(!inner.filter_entry(b"test/a.json", true, Some(&"json".to_owned())));
}
