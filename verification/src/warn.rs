//! Reporting warnings and notes.

use vstd::prelude::*;
use vstd::string::*;

use crate::emitted;
use crate::emitted::{
    Emitted, Flags, State, WarningStateMap, ALLOW_MSG_EMITTED, BUG_MSG_EMITTED, WARNING_EMITTED,
};
use crate::paint;
use crate::warning;
use crate::warning::Warning;

verus! {

/// The options that decide which warnings are reported.
pub struct Opts {
    /// Warnings to silence.
    pub allow: Vec<Warning>,
    /// Warnings to treat as errors.
    pub deny: Vec<Warning>,
    /// Whether to print nothing at all.
    pub quiet: bool,
}

/// Where and how to report.
pub struct LightContext {
    pub opts: Opts,
    /// Whether the console understands escape sequences.
    pub is_terminal: bool,
}

/// An error with a message for the user.
pub struct Error {
    pub message: String,
}

/// The remark that a warning may be due to a bug.
pub const BUG_MSG: &'static str = "

This may indicate a bug in Necessist. Consider opening an issue at: \
https://github.com/trailofbits/necessist/issues
";

/// What comes of a warning.
pub enum Outcome {
    /// It is an error with this message.
    Denied(Seq<char>),
    /// Nothing is printed.
    Silent,
    /// This line is printed.
    Printed(Seq<char>),
}

/// The outcome that a result of [`warn`] stands for.
pub open spec fn outcome(result: Result<Option<String>, Error>) -> Outcome {
    match result {
        Ok(Some(line)) => Outcome::Printed(line@),
        Ok(None) => Outcome::Silent,
        Err(error) => Outcome::Denied(error.message@),
    }
}

/// The kinds of warnings that may be due to a bug in the tool itself.
pub open spec fn may_be_bug_spec(warning: Warning) -> bool {
    ||| warning is InstrumentationNonbuildable
    ||| warning is ModulePathUnknown
    ||| warning is RunTestFailed
}

/// `warning` is to be treated as an error.
pub open spec fn is_denied(opts: Opts, warning: Warning) -> bool {
    opts.deny@.contains(Warning::All) || opts.deny@.contains(warning)
}

/// A `warning` that is not an error is not to be printed either.
pub open spec fn is_silenced(opts: Opts, warning: Warning, flags: Flags, before: Emitted) -> bool {
    ||| opts.quiet
    ||| opts.allow@.contains(Warning::All)
    ||| opts.allow@.contains(warning)
    ||| flags.is_once() && before.warning
}

/// The message with the remark that there may be a bug, if that applies and has not been said.
pub open spec fn full_message(warning: Warning, msg: Seq<char>, before: Emitted) -> Seq<char> {
    if may_be_bug_spec(warning) && !before.bug_msg {
        msg + BUG_MSG@
    } else {
        msg
    }
}

/// How to silence the warning, if that has not been said.
pub open spec fn allow_hint(warning: Warning, before: Emitted) -> Seq<char> {
    if before.allow_msg {
        Seq::empty()
    } else {
        "\nSilence this warning with: --allow "@ + warning.option_name()
    }
}

/// The source of a warning, as it precedes the warning.
pub open spec fn source_prefix(source: Option<Seq<char>>) -> Seq<char> {
    match source {
        Some(source) => source + ": "@,
        None => Seq::empty(),
    }
}

/// The word `Warning`, painted for a terminal.
pub open spec fn warning_label(is_terminal: bool) -> Seq<char> {
    if is_terminal {
        paint::bold_yellow_spec("Warning"@)
    } else {
        "Warning"@
    }
}

/// The word `Note`, painted for a terminal.
pub open spec fn note_label(is_terminal: bool) -> Seq<char> {
    if is_terminal {
        paint::bold_green_spec("Note"@)
    } else {
        "Note"@
    }
}

/// What comes of a warning about whose kind `before` has been printed.
pub open spec fn warned(
    context: LightContext,
    before: Emitted,
    warning: Warning,
    source: Option<Seq<char>>,
    msg: Seq<char>,
    flags: Flags,
) -> Outcome {
    if is_denied(context.opts, warning) {
        Outcome::Denied(full_message(warning, msg, before))
    } else if is_silenced(context.opts, warning, flags, before) {
        Outcome::Silent
    } else {
        Outcome::Printed(
            source_prefix(source) + warning_label(context.is_terminal) + ": "@ + full_message(
                warning,
                msg,
                before,
            ) + allow_hint(warning, before),
        )
    }
}

/// What has been printed about a kind of warning once such a warning has been handled.
///
/// The remark about a bug counts as printed even where the message that it belongs to is dropped.
pub open spec fn emitted_after(
    opts: Opts,
    before: Emitted,
    warning: Warning,
    flags: Flags,
) -> Emitted {
    let printed = !is_denied(opts, warning) && !is_silenced(opts, warning, flags, before);
    Emitted {
        allow_msg: before.allow_msg || printed,
        bug_msg: before.bug_msg || may_be_bug_spec(warning),
        warning: before.warning || printed,
    }
}

/// What has been printed about each kind of warning once a warning has been handled.
pub open spec fn states_after(
    opts: Opts,
    states: Map<Warning, Emitted>,
    warning: Warning,
    flags: Flags,
) -> Map<Warning, Emitted> {
    states.insert(
        warning,
        emitted_after(opts, emitted::emitted(states, warning), warning, flags),
    )
}

/// A warning with a source fares like one without. If it is printed, the line is the same but for
/// the source in front of it.
pub proof fn law_source_only_precedes_the_line(
    context: LightContext,
    before: Emitted,
    warning: Warning,
    source: Seq<char>,
    msg: Seq<char>,
    flags: Flags,
)
    ensures
        warned(context, before, warning, Some(source), msg, flags) == match warned(
            context,
            before,
            warning,
            None,
            msg,
            flags,
        ) {
            Outcome::Printed(line) => Outcome::Printed(source + ": "@ + line),
            other => other,
        },
{
    match warned(context, before, warning, None, msg, flags) {
        Outcome::Printed(line) => {
            assert(source + ": "@ + line =~= source_prefix(Some(source)) + warning_label(
                context.is_terminal,
            ) + ": "@ + full_message(warning, msg, before) + allow_hint(warning, before));
        },
        _ => {},
    }
}

/// The hint that is printed with a warning names that very kind of warning: no other kind has it.
pub proof fn law_allow_hint_names_its_warning(left: Warning, right: Warning)
    requires
        allow_hint(left, Emitted::nothing()) == allow_hint(right, Emitted::nothing()),
    ensures
        left == right,
{
    let hint = allow_hint(left, Emitted::nothing());
    let head = "\nSilence this warning with: --allow "@.len() as int;
    assert(left.option_name() =~= hint.skip(head));
    assert(right.option_name() =~= hint.skip(head));
    warning::law_option_names_differ(left, right);
}

/// Like [`warn`], but the line starts with the warning's source.
pub fn source_warn(
    context: &LightContext,
    states: &mut WarningStateMap,
    warning: Warning,
    source: &str,
    msg: &str,
    flags: Flags,
) -> (result: Result<Option<String>, Error>)
    requires
        warning != Warning::All,
    ensures
        outcome(result) == warned(
            *context,
            emitted::emitted(old(states)@, warning),
            warning,
            Some(source@),
            msg@,
            flags,
        ),
        final(states)@ == states_after(context.opts, old(states)@, warning, flags),
{
    warn_internal(context, states, warning, Some(source), msg, flags)
}

/// Reports a warning.
///
/// # Arguments
///
/// * `context` - Where and how to report the warning.
/// * `states` - What has been printed about each kind of warning.
/// * `warning` - The kind of the warning.
/// * `msg` - The message.
/// * `flags` - The flags to apply.
///
/// The result is the line to print, if any.
///
/// # Errors
///
/// Returns an error with the message if the warning is denied.
pub fn warn(
    context: &LightContext,
    states: &mut WarningStateMap,
    warning: Warning,
    msg: &str,
    flags: Flags,
) -> (result: Result<Option<String>, Error>)
    requires
        warning != Warning::All,
    ensures
        outcome(result) == warned(
            *context,
            emitted::emitted(old(states)@, warning),
            warning,
            None,
            msg@,
            flags,
        ),
        final(states)@ == states_after(context.opts, old(states)@, warning, flags),
{
    warn_internal(context, states, warning, None, msg, flags)
}

/// The source's view, if there is a source.
pub open spec fn source_view(source: Option<&str>) -> Option<Seq<char>> {
    match source {
        Some(source) => Some(source@),
        None => None,
    }
}

/// Reports a warning, with its source if there is one. See [`warn`] and [`source_warn`].
pub fn warn_internal(
    context: &LightContext,
    states: &mut WarningStateMap,
    warning: Warning,
    source: Option<&str>,
    msg: &str,
    flags: Flags,
) -> (result: Result<Option<String>, Error>)
    requires
        warning != Warning::All,
    ensures
        outcome(result) == warned(
            *context,
            emitted::emitted(old(states)@, warning),
            warning,
            source_view(source),
            msg@,
            flags,
        ),
        final(states)@ == states_after(context.opts, old(states)@, warning, flags),
{
    let mut state: State = states.state(warning);
    let ghost before = state@;

    // The remark about a bug belongs to the message even if the message becomes an error.
    let mut message = msg.to_owned();
    if may_be_bug(warning) && !state.contains(BUG_MSG_EMITTED) {
        state.insert(BUG_MSG_EMITTED);
        message.append(BUG_MSG);
    }

    if contains(&context.opts.deny, Warning::All) || contains(&context.opts.deny, warning) {
        states.set(warning, state);
        return Err(Error { message });
    }
    if context.opts.quiet || contains(&context.opts.allow, Warning::All) || contains(
        &context.opts.allow,
        warning,
    ) || (flags.contains(Flags::once()) && state.contains(WARNING_EMITTED)) {
        states.set(warning, state);
        return Ok(None);
    }
    let mut line = String::new();
    if let Some(source) = source {
        line.append(source);
        line.append(": ");
    }
    if context.is_terminal {
        line.append(paint::bold_yellow("Warning").as_str());
    } else {
        line.append("Warning");
    }
    line.append(": ");
    line.append(message.as_str());
    if !state.contains(ALLOW_MSG_EMITTED) {
        state.insert(ALLOW_MSG_EMITTED);
        line.append("\nSilence this warning with: --allow ");
        line.append(warning.to_string().as_str());
    }
    assert(line@ =~= source_prefix(source_view(source)) + warning_label(context.is_terminal) + ": "@
        + full_message(warning, msg@, before) + allow_hint(warning, before));
    state.insert(WARNING_EMITTED);
    states.set(warning, state);
    Ok(Some(line))
}

/// A note for the user: the line to print, unless nothing is to be printed.
pub fn note(context: &LightContext, msg: &str) -> (line: Option<String>)
    ensures
        line is None <==> context.opts.quiet,
        line matches Some(line) ==> line@ == note_label(context.is_terminal) + ": "@ + msg@,
{
    if context.opts.quiet {
        return None;
    }
    let mut line = if context.is_terminal {
        paint::bold_green("Note")
    } else {
        "Note".to_owned()
    };
    line.append(": ");
    line.append(msg);
    Some(line)
}

/// Whether the warning may be due to a bug in the tool itself.
pub fn may_be_bug(warning: Warning) -> (may_be: bool)
    requires
        warning != Warning::All,
    ensures
        may_be == may_be_bug_spec(warning),
{
    match warning {
        Warning::All
        | Warning::DatabaseDoesNotExist
        | Warning::DryRunFailed
        | Warning::FilesChanged
        | Warning::IgnoredFunctionsUnsupported
        | Warning::IgnoredMacrosUnsupported
        | Warning::IgnoredMethodsUnsupported
        | Warning::ItMessageNotFound
        | Warning::LocalFunctionAmbiguous
        | Warning::OptionDeprecated
        | Warning::OutputInvalid
        | Warning::ParsingFailed => false,
        Warning::InstrumentationNonbuildable
        | Warning::ModulePathUnknown
        | Warning::RunTestFailed => true,
    }
}

/// Whether `warning` is one of `warnings`.
fn contains(warnings: &Vec<Warning>, warning: Warning) -> (contained: bool)
    ensures
        contained == warnings@.contains(warning),
{
    for i in 0..warnings.len()
        invariant
            forall|j: int| 0 <= j < i ==> warnings@[j] != warning,
    {
        if warnings[i] == warning {
            assert(warnings@[i as int] == warning);
            return true;
        }
    }
    false
}

} // verus!
