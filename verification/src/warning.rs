//! The kinds of warnings.

use vstd::prelude::*;

use crate::kebab;

verus! {

/// A kind of warning.
///
/// A name says what the warning is about (e.g., `Output`), followed by why it is issued (e.g.,
/// `Invalid`).
#[derive(Clone, Copy, Debug, PartialEq, Eq, PartialOrd, Ord, Structural)]
#[non_exhaustive]
pub enum Warning {
    All,
    DatabaseDoesNotExist,
    DryRunFailed,
    FilesChanged,
    IgnoredFunctionsUnsupported,
    IgnoredMacrosUnsupported,
    IgnoredMethodsUnsupported,
    InstrumentationNonbuildable,
    ItMessageNotFound,
    LocalFunctionAmbiguous,
    ModulePathUnknown,
    OptionDeprecated,
    OutputInvalid,
    ParsingFailed,
    RunTestFailed,
}

impl Warning {
    /// The name by which options such as `--allow` refer to the warning.
    pub open spec fn option_name(self) -> Seq<char> {
        match self {
            Warning::All => "all"@,
            Warning::DatabaseDoesNotExist => "database-does-not-exist"@,
            Warning::DryRunFailed => "dry-run-failed"@,
            Warning::FilesChanged => "files-changed"@,
            Warning::IgnoredFunctionsUnsupported => "ignored-functions-unsupported"@,
            Warning::IgnoredMacrosUnsupported => "ignored-macros-unsupported"@,
            Warning::IgnoredMethodsUnsupported => "ignored-methods-unsupported"@,
            Warning::InstrumentationNonbuildable => "instrumentation-nonbuildable"@,
            Warning::ItMessageNotFound => "it-message-not-found"@,
            Warning::LocalFunctionAmbiguous => "local-function-ambiguous"@,
            Warning::ModulePathUnknown => "module-path-unknown"@,
            Warning::OptionDeprecated => "option-deprecated"@,
            Warning::OutputInvalid => "output-invalid"@,
            Warning::ParsingFailed => "parsing-failed"@,
            Warning::RunTestFailed => "run-test-failed"@,
        }
    }

    /// The identifier of the warning.
    pub open spec fn identifier_spec(self) -> Seq<char> {
        match self {
            Warning::All => "All"@,
            Warning::DatabaseDoesNotExist => "DatabaseDoesNotExist"@,
            Warning::DryRunFailed => "DryRunFailed"@,
            Warning::FilesChanged => "FilesChanged"@,
            Warning::IgnoredFunctionsUnsupported => "IgnoredFunctionsUnsupported"@,
            Warning::IgnoredMacrosUnsupported => "IgnoredMacrosUnsupported"@,
            Warning::IgnoredMethodsUnsupported => "IgnoredMethodsUnsupported"@,
            Warning::InstrumentationNonbuildable => "InstrumentationNonbuildable"@,
            Warning::ItMessageNotFound => "ItMessageNotFound"@,
            Warning::LocalFunctionAmbiguous => "LocalFunctionAmbiguous"@,
            Warning::ModulePathUnknown => "ModulePathUnknown"@,
            Warning::OptionDeprecated => "OptionDeprecated"@,
            Warning::OutputInvalid => "OutputInvalid"@,
            Warning::ParsingFailed => "ParsingFailed"@,
            Warning::RunTestFailed => "RunTestFailed"@,
        }
    }

    /// The identifier of the warning.
    pub fn identifier(&self) -> (name: &'static str)
        ensures
            name@ == self.identifier_spec(),
    {
        match self {
            Warning::All => "All",
            Warning::DatabaseDoesNotExist => "DatabaseDoesNotExist",
            Warning::DryRunFailed => "DryRunFailed",
            Warning::FilesChanged => "FilesChanged",
            Warning::IgnoredFunctionsUnsupported => "IgnoredFunctionsUnsupported",
            Warning::IgnoredMacrosUnsupported => "IgnoredMacrosUnsupported",
            Warning::IgnoredMethodsUnsupported => "IgnoredMethodsUnsupported",
            Warning::InstrumentationNonbuildable => "InstrumentationNonbuildable",
            Warning::ItMessageNotFound => "ItMessageNotFound",
            Warning::LocalFunctionAmbiguous => "LocalFunctionAmbiguous",
            Warning::ModulePathUnknown => "ModulePathUnknown",
            Warning::OptionDeprecated => "OptionDeprecated",
            Warning::OutputInvalid => "OutputInvalid",
            Warning::ParsingFailed => "ParsingFailed",
            Warning::RunTestFailed => "RunTestFailed",
        }
    }

    /// The position of the warning in the declaration.
    pub open spec fn index_spec(self) -> u8 {
        match self {
            Warning::All => 0,
            Warning::DatabaseDoesNotExist => 1,
            Warning::DryRunFailed => 2,
            Warning::FilesChanged => 3,
            Warning::IgnoredFunctionsUnsupported => 4,
            Warning::IgnoredMacrosUnsupported => 5,
            Warning::IgnoredMethodsUnsupported => 6,
            Warning::InstrumentationNonbuildable => 7,
            Warning::ItMessageNotFound => 8,
            Warning::LocalFunctionAmbiguous => 9,
            Warning::ModulePathUnknown => 10,
            Warning::OptionDeprecated => 11,
            Warning::OutputInvalid => 12,
            Warning::ParsingFailed => 13,
            Warning::RunTestFailed => 14,
        }
    }

    /// The position of the warning in the declaration.
    pub(crate) fn index(&self) -> (index: u8)
        ensures
            index == self.index_spec(),
    {
        match self {
            Warning::All => 0,
            Warning::DatabaseDoesNotExist => 1,
            Warning::DryRunFailed => 2,
            Warning::FilesChanged => 3,
            Warning::IgnoredFunctionsUnsupported => 4,
            Warning::IgnoredMacrosUnsupported => 5,
            Warning::IgnoredMethodsUnsupported => 6,
            Warning::InstrumentationNonbuildable => 7,
            Warning::ItMessageNotFound => 8,
            Warning::LocalFunctionAmbiguous => 9,
            Warning::ModulePathUnknown => 10,
            Warning::OptionDeprecated => 11,
            Warning::OutputInvalid => 12,
            Warning::ParsingFailed => 13,
            Warning::RunTestFailed => 14,
        }
    }

    /// The name by which options such as `--allow` refer to the warning.
    pub fn to_string(&self) -> (name: String)
        ensures
            name@ == self.option_name(),
    {
        proof {
            lemma_option_name(*self);
        }
        kebab::to_kebab_case(self.identifier())
    }
}

/// Each warning's identifier is in camel case, and its option name is that identifier in kebab
/// case.
proof fn lemma_option_name(warning: Warning)
    ensures
        warning.identifier_spec().len() > 0,
        kebab::is_camel_case(warning.identifier_spec(), warning.identifier_spec().len()),
        kebab::hyphenated(warning.identifier_spec(), warning.identifier_spec().len())
            == warning.option_name(),
{
    let identifier = warning.identifier_spec();
    let name = warning.option_name();
    match warning {
        Warning::All => {
            reveal_strlit("All");
            reveal_strlit("all");
            reveal_with_fuel(kebab::hyphenates_to, 4);
            assert(kebab::hyphenates_to(identifier, 3, name, 3));
        },
        Warning::DatabaseDoesNotExist => {
            reveal_strlit("DatabaseDoesNotExist");
            reveal_strlit("database-does-not-exist");
            reveal_with_fuel(kebab::hyphenates_to, 21);
            assert(kebab::hyphenates_to(identifier, 20, name, 23));
        },
        Warning::DryRunFailed => {
            reveal_strlit("DryRunFailed");
            reveal_strlit("dry-run-failed");
            reveal_with_fuel(kebab::hyphenates_to, 13);
            assert(kebab::hyphenates_to(identifier, 12, name, 14));
        },
        Warning::FilesChanged => {
            reveal_strlit("FilesChanged");
            reveal_strlit("files-changed");
            reveal_with_fuel(kebab::hyphenates_to, 13);
            assert(kebab::hyphenates_to(identifier, 12, name, 13));
        },
        Warning::IgnoredFunctionsUnsupported => {
            reveal_strlit("IgnoredFunctionsUnsupported");
            reveal_strlit("ignored-functions-unsupported");
            reveal_with_fuel(kebab::hyphenates_to, 28);
            assert(kebab::hyphenates_to(identifier, 27, name, 29));
        },
        Warning::IgnoredMacrosUnsupported => {
            reveal_strlit("IgnoredMacrosUnsupported");
            reveal_strlit("ignored-macros-unsupported");
            reveal_with_fuel(kebab::hyphenates_to, 25);
            assert(kebab::hyphenates_to(identifier, 24, name, 26));
        },
        Warning::IgnoredMethodsUnsupported => {
            reveal_strlit("IgnoredMethodsUnsupported");
            reveal_strlit("ignored-methods-unsupported");
            reveal_with_fuel(kebab::hyphenates_to, 26);
            assert(kebab::hyphenates_to(identifier, 25, name, 27));
        },
        Warning::InstrumentationNonbuildable => {
            reveal_strlit("InstrumentationNonbuildable");
            reveal_strlit("instrumentation-nonbuildable");
            reveal_with_fuel(kebab::hyphenates_to, 28);
            assert(kebab::hyphenates_to(identifier, 27, name, 28));
        },
        Warning::ItMessageNotFound => {
            reveal_strlit("ItMessageNotFound");
            reveal_strlit("it-message-not-found");
            reveal_with_fuel(kebab::hyphenates_to, 18);
            assert(kebab::hyphenates_to(identifier, 17, name, 20));
        },
        Warning::LocalFunctionAmbiguous => {
            reveal_strlit("LocalFunctionAmbiguous");
            reveal_strlit("local-function-ambiguous");
            reveal_with_fuel(kebab::hyphenates_to, 23);
            assert(kebab::hyphenates_to(identifier, 22, name, 24));
        },
        Warning::ModulePathUnknown => {
            reveal_strlit("ModulePathUnknown");
            reveal_strlit("module-path-unknown");
            reveal_with_fuel(kebab::hyphenates_to, 18);
            assert(kebab::hyphenates_to(identifier, 17, name, 19));
        },
        Warning::OptionDeprecated => {
            reveal_strlit("OptionDeprecated");
            reveal_strlit("option-deprecated");
            reveal_with_fuel(kebab::hyphenates_to, 17);
            assert(kebab::hyphenates_to(identifier, 16, name, 17));
        },
        Warning::OutputInvalid => {
            reveal_strlit("OutputInvalid");
            reveal_strlit("output-invalid");
            reveal_with_fuel(kebab::hyphenates_to, 14);
            assert(kebab::hyphenates_to(identifier, 13, name, 14));
        },
        Warning::ParsingFailed => {
            reveal_strlit("ParsingFailed");
            reveal_strlit("parsing-failed");
            reveal_with_fuel(kebab::hyphenates_to, 14);
            assert(kebab::hyphenates_to(identifier, 13, name, 14));
        },
        Warning::RunTestFailed => {
            reveal_strlit("RunTestFailed");
            reveal_strlit("run-test-failed");
            reveal_with_fuel(kebab::hyphenates_to, 14);
            assert(kebab::hyphenates_to(identifier, 13, name, 15));
        },
    }
    kebab::lemma_hyphenates_to(identifier, identifier.len(), name, name.len());
    assert(name.take(name.len() as int) =~= name);
}

/// Without its hyphens, an option name has the letters of the identifier.
pub(crate) proof fn lemma_name_spells_the_identifier(warning: Warning)
    ensures
        ({
            let letters = warning.option_name().filter(|c: char| c != '-');
            let identifier = warning.identifier_spec();
            &&& letters.len() == identifier.len()
            &&& forall|i: int|
                0 <= i < identifier.len() ==> letters[i] as u32 == #[trigger] identifier[i] as u32
                    || letters[i] as u32 == identifier[i] as u32 + 32
        }),
{
    lemma_option_name(warning);
    kebab::lemma_letters(warning.identifier_spec(), warning.identifier_spec().len());
}

/// An option name consists of lower-case letters and single hyphens between them.
pub proof fn law_option_name_is_kebab_case(warning: Warning)
    ensures
        kebab::is_kebab_case(warning.option_name()),
{
    lemma_option_name(warning);
    let identifier = warning.identifier_spec();
    kebab::law_hyphenated_is_kebab_case(identifier, identifier.len());
}

/// Different warnings have different option names.
pub proof fn law_option_names_differ(left: Warning, right: Warning)
    ensures
        left.option_name() == right.option_name() <==> left == right,
{
    reveal_strlit("all");
    reveal_strlit("database-does-not-exist");
    reveal_strlit("dry-run-failed");
    reveal_strlit("files-changed");
    reveal_strlit("ignored-functions-unsupported");
    reveal_strlit("ignored-macros-unsupported");
    reveal_strlit("ignored-methods-unsupported");
    reveal_strlit("instrumentation-nonbuildable");
    reveal_strlit("it-message-not-found");
    reveal_strlit("local-function-ambiguous");
    reveal_strlit("module-path-unknown");
    reveal_strlit("option-deprecated");
    reveal_strlit("output-invalid");
    reveal_strlit("parsing-failed");
    reveal_strlit("run-test-failed");
    if left.option_name() == right.option_name() {
        let name = left.option_name();
        assert(name.len() == right.option_name().len());
        assert(name[0] == right.option_name()[0]);
        assert(name[1] == right.option_name()[1]);
    }
}

} // verus!
