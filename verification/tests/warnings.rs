use necessist_ts::emitted::{Flags, WarningStateMap};
use necessist_ts::warn::{may_be_bug, note, source_warn, warn, Error, LightContext, Opts};
use necessist_ts::warning::Warning;

const BUG_MSG: &str = "\n\nThis may indicate a bug in Necessist. Consider opening an issue at: https://github.com/trailofbits/necessist/issues\n";

fn context(allow: Vec<Warning>, deny: Vec<Warning>, quiet: bool) -> LightContext {
    LightContext {
        opts: Opts { allow, deny, quiet },
        is_terminal: false,
    }
}

fn plain() -> LightContext {
    context(vec![], vec![], false)
}

fn printed(result: Result<Option<String>, Error>) -> String {
    result.ok().unwrap().unwrap()
}

fn is_silent(result: Result<Option<String>, Error>) -> bool {
    matches!(result, Ok(None))
}

fn denied(result: Result<Option<String>, Error>) -> String {
    result.err().unwrap().message
}

#[test]
fn option_names() {
    let names = [
        (Warning::All, "All", "all"),
        (
            Warning::DatabaseDoesNotExist,
            "DatabaseDoesNotExist",
            "database-does-not-exist",
        ),
        (Warning::DryRunFailed, "DryRunFailed", "dry-run-failed"),
        (Warning::FilesChanged, "FilesChanged", "files-changed"),
        (
            Warning::IgnoredFunctionsUnsupported,
            "IgnoredFunctionsUnsupported",
            "ignored-functions-unsupported",
        ),
        (
            Warning::IgnoredMacrosUnsupported,
            "IgnoredMacrosUnsupported",
            "ignored-macros-unsupported",
        ),
        (
            Warning::IgnoredMethodsUnsupported,
            "IgnoredMethodsUnsupported",
            "ignored-methods-unsupported",
        ),
        (
            Warning::InstrumentationNonbuildable,
            "InstrumentationNonbuildable",
            "instrumentation-nonbuildable",
        ),
        (
            Warning::ItMessageNotFound,
            "ItMessageNotFound",
            "it-message-not-found",
        ),
        (
            Warning::LocalFunctionAmbiguous,
            "LocalFunctionAmbiguous",
            "local-function-ambiguous",
        ),
        (
            Warning::ModulePathUnknown,
            "ModulePathUnknown",
            "module-path-unknown",
        ),
        (
            Warning::OptionDeprecated,
            "OptionDeprecated",
            "option-deprecated",
        ),
        (Warning::OutputInvalid, "OutputInvalid", "output-invalid"),
        (Warning::ParsingFailed, "ParsingFailed", "parsing-failed"),
        (Warning::RunTestFailed, "RunTestFailed", "run-test-failed"),
    ];
    for (i, (warning, identifier, name)) in names.iter().enumerate() {
        assert_eq!(warning.identifier(), *identifier);
        assert_eq!(format!("{warning:?}"), *identifier);
        assert_eq!(warning.to_string(), *name);
        for (other, _, other_name) in &names[..i] {
            assert!(other < warning);
            assert_ne!(other_name, name);
        }
    }
}

#[test]
fn bug_suspects() {
    for warning in [
        Warning::InstrumentationNonbuildable,
        Warning::ModulePathUnknown,
        Warning::RunTestFailed,
    ] {
        assert!(may_be_bug(warning));
    }
    for warning in [
        Warning::DatabaseDoesNotExist,
        Warning::DryRunFailed,
        Warning::FilesChanged,
        Warning::IgnoredFunctionsUnsupported,
        Warning::IgnoredMacrosUnsupported,
        Warning::IgnoredMethodsUnsupported,
        Warning::ItMessageNotFound,
        Warning::LocalFunctionAmbiguous,
        Warning::OptionDeprecated,
        Warning::OutputInvalid,
        Warning::ParsingFailed,
    ] {
        assert!(!may_be_bug(warning));
    }
}

#[test]
fn flags() {
    assert!(Flags::once().contains(Flags::once()));
    assert!(Flags::once().contains(Flags::empty()));
    assert!(Flags::empty().contains(Flags::empty()));
    assert!(!Flags::empty().contains(Flags::once()));
}

#[test]
fn hint_comes_with_the_first_line() {
    let mut states = WarningStateMap::new();
    assert_eq!(
        printed(warn(
            &plain(),
            &mut states,
            Warning::FilesChanged,
            "a",
            Flags::empty()
        )),
        "Warning: a\nSilence this warning with: --allow files-changed"
    );
    assert_eq!(
        printed(warn(
            &plain(),
            &mut states,
            Warning::FilesChanged,
            "b",
            Flags::empty()
        )),
        "Warning: b"
    );
    assert_eq!(
        printed(warn(
            &plain(),
            &mut states,
            Warning::ParsingFailed,
            "c",
            Flags::empty()
        )),
        "Warning: c\nSilence this warning with: --allow parsing-failed"
    );
}

#[test]
fn source_precedes_the_warning() {
    let mut states = WarningStateMap::new();
    assert_eq!(
        printed(source_warn(
            &plain(),
            &mut states,
            Warning::OutputInvalid,
            "a.ts:1:2-3:4",
            "x",
            Flags::empty()
        )),
        "a.ts:1:2-3:4: Warning: x\nSilence this warning with: --allow output-invalid"
    );
}

#[test]
fn labels_are_painted_for_terminals() {
    let mut context = plain();
    context.is_terminal = true;
    let mut states = WarningStateMap::new();
    assert_eq!(
        printed(source_warn(
            &context,
            &mut states,
            Warning::OutputInvalid,
            "s",
            "x",
            Flags::empty()
        )),
        "s: \u{1b}[1;33mWarning\u{1b}[0m: x\nSilence this warning with: --allow output-invalid"
    );
    assert_eq!(
        note(&context, "x").unwrap(),
        "\u{1b}[1;32mNote\u{1b}[0m: x"
    );
}

#[test]
fn notes() {
    assert_eq!(note(&plain(), "x").unwrap(), "Note: x");
    assert!(note(&context(vec![], vec![], true), "x").is_none());
}

#[test]
fn bug_remark_comes_once() {
    let mut states = WarningStateMap::new();
    assert_eq!(
        printed(warn(
            &plain(),
            &mut states,
            Warning::RunTestFailed,
            "a",
            Flags::empty()
        )),
        format!("Warning: a{BUG_MSG}\nSilence this warning with: --allow run-test-failed")
    );
    assert_eq!(
        printed(warn(
            &plain(),
            &mut states,
            Warning::RunTestFailed,
            "b",
            Flags::empty()
        )),
        "Warning: b"
    );
}

#[test]
fn bug_remark_counts_even_if_silenced() {
    let mut states = WarningStateMap::new();
    assert!(is_silent(warn(
        &context(vec![], vec![], true),
        &mut states,
        Warning::ModulePathUnknown,
        "a",
        Flags::empty()
    )));
    assert_eq!(
        printed(warn(
            &plain(),
            &mut states,
            Warning::ModulePathUnknown,
            "b",
            Flags::empty()
        )),
        "Warning: b\nSilence this warning with: --allow module-path-unknown"
    );
}

#[test]
fn once_means_once() {
    let mut states = WarningStateMap::new();
    assert!(!is_silent(warn(
        &plain(),
        &mut states,
        Warning::OptionDeprecated,
        "a",
        Flags::once()
    )));
    assert!(is_silent(warn(
        &plain(),
        &mut states,
        Warning::OptionDeprecated,
        "b",
        Flags::once()
    )));
    assert_eq!(
        printed(warn(
            &plain(),
            &mut states,
            Warning::OptionDeprecated,
            "c",
            Flags::empty()
        )),
        "Warning: c"
    );
    assert!(!is_silent(warn(
        &plain(),
        &mut states,
        Warning::OutputInvalid,
        "d",
        Flags::once()
    )));
}

#[test]
fn silenced_warning_does_not_count_as_printed() {
    let mut states = WarningStateMap::new();
    assert!(is_silent(warn(
        &context(vec![Warning::DryRunFailed], vec![], false),
        &mut states,
        Warning::DryRunFailed,
        "a",
        Flags::once()
    )));
    assert_eq!(
        printed(warn(
            &plain(),
            &mut states,
            Warning::DryRunFailed,
            "b",
            Flags::once()
        )),
        "Warning: b\nSilence this warning with: --allow dry-run-failed"
    );
}

#[test]
fn allowed_warnings_are_silent() {
    let mut states = WarningStateMap::new();
    for context in [
        context(vec![Warning::FilesChanged], vec![], false),
        context(vec![Warning::All], vec![], false),
        context(vec![], vec![], true),
    ] {
        assert!(is_silent(warn(
            &context,
            &mut states,
            Warning::FilesChanged,
            "a",
            Flags::empty()
        )));
    }
    assert!(!is_silent(warn(
        &context(vec![Warning::FilesChanged], vec![], false),
        &mut states,
        Warning::ParsingFailed,
        "a",
        Flags::empty()
    )));
}

#[test]
fn denied_warnings_are_errors() {
    let mut states = WarningStateMap::new();
    for context in [
        context(vec![], vec![Warning::FilesChanged], false),
        context(vec![], vec![Warning::All], false),
        context(
            vec![Warning::FilesChanged],
            vec![Warning::ParsingFailed, Warning::FilesChanged],
            true,
        ),
    ] {
        assert_eq!(
            denied(source_warn(
                &context,
                &mut states,
                Warning::FilesChanged,
                "s",
                "a",
                Flags::once()
            )),
            "a"
        );
    }
    assert!(!is_silent(warn(
        &plain(),
        &mut states,
        Warning::FilesChanged,
        "a",
        Flags::once()
    )));
}

#[test]
fn denied_warning_carries_the_bug_remark_once() {
    let context = context(vec![], vec![Warning::InstrumentationNonbuildable], false);
    let mut states = WarningStateMap::new();
    assert_eq!(
        denied(warn(
            &context,
            &mut states,
            Warning::InstrumentationNonbuildable,
            "a",
            Flags::empty()
        )),
        format!("a{BUG_MSG}")
    );
    assert_eq!(
        denied(warn(
            &context,
            &mut states,
            Warning::InstrumentationNonbuildable,
            "b",
            Flags::empty()
        )),
        "b"
    );
}

#[test]
fn source_does_not_matter_to_what_is_counted() {
    let (mut with, mut without) = (WarningStateMap::new(), WarningStateMap::new());
    for msg in ["a", "b"] {
        let line = printed(warn(
            &plain(),
            &mut without,
            Warning::RunTestFailed,
            msg,
            Flags::empty(),
        ));
        assert_eq!(
            printed(source_warn(
                &plain(),
                &mut with,
                Warning::RunTestFailed,
                "s",
                msg,
                Flags::empty()
            )),
            format!("s: {line}")
        );
    }
}

#[test]
fn first_line_of_a_kind_has_the_remark_and_the_hint() {
    let mut states = WarningStateMap::new();
    let denying = context(vec![], vec![Warning::OutputInvalid], false);
    let quiet = context(vec![], vec![], true);
    denied(warn(
        &denying,
        &mut states,
        Warning::OutputInvalid,
        "a",
        Flags::empty(),
    ));
    assert!(is_silent(warn(
        &quiet,
        &mut states,
        Warning::OutputInvalid,
        "b",
        Flags::empty()
    )));
    assert_eq!(
        printed(warn(
            &plain(),
            &mut states,
            Warning::OutputInvalid,
            "c",
            Flags::empty()
        )),
        "Warning: c\nSilence this warning with: --allow output-invalid"
    );
    assert_eq!(
        printed(warn(
            &plain(),
            &mut states,
            Warning::RunTestFailed,
            "d",
            Flags::once()
        )),
        format!("Warning: d{BUG_MSG}\nSilence this warning with: --allow run-test-failed")
    );
}

#[test]
fn option_names_are_kebab_case() {
    for warning in [
        Warning::All,
        Warning::DatabaseDoesNotExist,
        Warning::ItMessageNotFound,
        Warning::RunTestFailed,
    ] {
        for word in warning.to_string().split('-') {
            assert!(!word.is_empty());
            assert!(word.chars().all(|c| c.is_ascii_lowercase()));
        }
    }
}

#[test]
fn only_the_same_kind_matters() {
    let calls = |others: &[Warning]| {
        let mut states = WarningStateMap::new();
        for other in others {
            let _ = warn(&plain(), &mut states, *other, "other", Flags::once());
        }
        let first = printed(warn(
            &plain(),
            &mut states,
            Warning::ModulePathUnknown,
            "a",
            Flags::empty(),
        ));
        for other in others {
            let _ = warn(&plain(), &mut states, *other, "other", Flags::empty());
        }
        let second = printed(warn(
            &plain(),
            &mut states,
            Warning::ModulePathUnknown,
            "b",
            Flags::empty(),
        ));
        (first, second)
    };
    assert_eq!(
        calls(&[]),
        calls(&[Warning::RunTestFailed, Warning::FilesChanged])
    );
    assert_eq!(calls(&[]).1, "Warning: b");
}
