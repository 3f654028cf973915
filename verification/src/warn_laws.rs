//! What comes of a call that reports a warning or a note, given the options, the message and what
//! has been printed before.
//!
//! The laws are about any call of [`warn::warn_internal`], of [`warn::warn`], which has no source,
//! and of [`warn::source_warn`], which has one. `states` is what has been printed about each kind of
//! warning.

use vstd::prelude::*;
use vstd::string::*;

use crate::emitted::{Flags, WarningStateMap};
use crate::warn;
use crate::warn::{Error, LightContext};
use crate::warning::Warning;

verus! {

/// The result is an error exactly if the options deny all warnings or this kind of warning. Neither
/// the kind, nor what else the options say, nor what has been printed, nor the terminal matters.
pub proof fn law_error_exactly_if_denied(
    context: &LightContext,
    states: &mut WarningStateMap,
    warning: Warning,
    source: Option<&str>,
    msg: &str,
    flags: Flags,
    result: Result<Option<String>, Error>,
)
    requires
        ({
            ||| call_ensures(
                warn::warn_internal,
                (context, states, warning, source, msg, flags),
                result,
            )
            ||| source is None && call_ensures(
                warn::warn,
                (context, states, warning, msg, flags),
                result,
            )
            ||| source matches Some(source) && call_ensures(
                warn::source_warn,
                (context, states, warning, source, msg, flags),
                result,
            )
        }),
    ensures
        result is Err <==> context.opts.deny@.contains(Warning::All)
            || context.opts.deny@.contains(warning),
{
}

/// There is a line to print exactly if the warning is not denied, something may be printed, neither
/// all warnings nor this kind is allowed, and the warning may be repeated or none of its kind has
/// been printed.
pub proof fn law_line_exactly_if_nothing_forbids_it(
    context: &LightContext,
    states: &mut WarningStateMap,
    warning: Warning,
    source: Option<&str>,
    msg: &str,
    flags: Flags,
    result: Result<Option<String>, Error>,
)
    requires
        ({
            ||| call_ensures(
                warn::warn_internal,
                (context, states, warning, source, msg, flags),
                result,
            )
            ||| source is None && call_ensures(
                warn::warn,
                (context, states, warning, msg, flags),
                result,
            )
            ||| source matches Some(source) && call_ensures(
                warn::source_warn,
                (context, states, warning, source, msg, flags),
                result,
            )
        }),
    ensures
        (result matches Ok(line) && line is Some) <==> {
            &&& !context.opts.deny@.contains(Warning::All)
            &&& !context.opts.deny@.contains(warning)
            &&& !context.opts.quiet
            &&& !context.opts.allow@.contains(Warning::All)
            &&& !context.opts.allow@.contains(warning)
            &&& !(flags.is_once() && old(states)@.contains_key(warning)
                && old(states)@[warning].warning)
        },
{
}

/// An error says the message. Behind it comes the remark about a bug exactly if the kind of warning
/// is one of three and the remark has not been made about it.
pub proof fn law_error_says_the_message(
    context: &LightContext,
    states: &mut WarningStateMap,
    warning: Warning,
    source: Option<&str>,
    msg: &str,
    flags: Flags,
    result: Result<Option<String>, Error>,
)
    requires
        ({
            ||| call_ensures(
                warn::warn_internal,
                (context, states, warning, source, msg, flags),
                result,
            )
            ||| source is None && call_ensures(
                warn::warn,
                (context, states, warning, msg, flags),
                result,
            )
            ||| source matches Some(source) && call_ensures(
                warn::source_warn,
                (context, states, warning, source, msg, flags),
                result,
            )
        }),
    ensures
        result matches Err(error) ==> {
            let suspect = warning == Warning::InstrumentationNonbuildable || warning
                == Warning::ModulePathUnknown || warning == Warning::RunTestFailed;
            let said = old(states)@.contains_key(warning) && old(states)@[warning].bug_msg;
            error.message@ == if suspect && !said {
                msg@ + warn::BUG_MSG@
            } else {
                msg@
            }
        },
{
}

/// A line reads: the source and a colon, if there is a source; the label, in bold and yellow on a
/// terminal; a colon; the message; the remark about a bug, under the same condition as for an error;
/// and how to silence the warning, unless that has been said about its kind.
pub proof fn law_line_reads_in_order(
    context: &LightContext,
    states: &mut WarningStateMap,
    warning: Warning,
    source: Option<&str>,
    msg: &str,
    flags: Flags,
    result: Result<Option<String>, Error>,
)
    requires
        ({
            ||| call_ensures(
                warn::warn_internal,
                (context, states, warning, source, msg, flags),
                result,
            )
            ||| source is None && call_ensures(
                warn::warn,
                (context, states, warning, msg, flags),
                result,
            )
            ||| source matches Some(source) && call_ensures(
                warn::source_warn,
                (context, states, warning, source, msg, flags),
                result,
            )
        }),
    ensures
        result matches Ok(Some(line)) ==> {
            let from = match source {
                Some(source) => source@ + ": "@,
                None => Seq::empty(),
            };
            let label = if context.is_terminal {
                "\u{1b}[1;33m"@ + "Warning"@ + "\u{1b}[0m"@
            } else {
                "Warning"@
            };
            let suspect = warning == Warning::InstrumentationNonbuildable || warning
                == Warning::ModulePathUnknown || warning == Warning::RunTestFailed;
            let known = old(states)@.contains_key(warning);
            let remark = if suspect && !(known && old(states)@[warning].bug_msg) {
                warn::BUG_MSG@
            } else {
                Seq::empty()
            };
            let hint = if known && old(states)@[warning].allow_msg {
                Seq::empty()
            } else {
                "\nSilence this warning with: --allow "@ + warning.option_name()
            };
            line@ =~= from + label + ": "@ + msg@ + remark + hint
        },
{
}

/// Of what has been printed, a warning changes nothing about other kinds. About its own kind, the
/// warning and the hint count as printed from now on exactly if they did or a line is printed, and
/// the remark about a bug exactly if it did or the kind is one of three.
pub proof fn law_what_a_warning_leaves_behind(
    context: &LightContext,
    states: &mut WarningStateMap,
    warning: Warning,
    source: Option<&str>,
    msg: &str,
    flags: Flags,
    result: Result<Option<String>, Error>,
)
    requires
        ({
            ||| call_ensures(
                warn::warn_internal,
                (context, states, warning, source, msg, flags),
                result,
            )
            ||| source is None && call_ensures(
                warn::warn,
                (context, states, warning, msg, flags),
                result,
            )
            ||| source matches Some(source) && call_ensures(
                warn::source_warn,
                (context, states, warning, source, msg, flags),
                result,
            )
        }),
    ensures
        forall|other: Warning|
            #![trigger final(states)@.contains_key(other)]
            #![trigger final(states)@[other]]
            other != warning ==> {
                &&& final(states)@.contains_key(other) == old(states)@.contains_key(other)
                &&& old(states)@.contains_key(other) ==> final(states)@[other]
                    == old(states)@[other]
            },
        final(states)@.contains_key(warning),
        ({
            let printed = result matches Ok(line) && line is Some;
            let suspect = warning == Warning::InstrumentationNonbuildable || warning
                == Warning::ModulePathUnknown || warning == Warning::RunTestFailed;
            let known = old(states)@.contains_key(warning);
            let before = old(states)@[warning];
            let after = final(states)@[warning];
            &&& after.warning == (known && before.warning || printed)
            &&& after.allow_msg == (known && before.allow_msg || printed)
            &&& after.bug_msg == (known && before.bug_msg || suspect)
        }),
{
}

/// The terminal decides about colors alone: of two calls that differ in it, both give an error with
/// the same message, or both give a line, or neither gives anything, and both leave the same behind.
pub proof fn law_terminal_decides_about_colors_alone(
    left: &LightContext,
    left_states: &mut WarningStateMap,
    left_result: Result<Option<String>, Error>,
    right: &LightContext,
    right_states: &mut WarningStateMap,
    right_result: Result<Option<String>, Error>,
    warning: Warning,
    source: Option<&str>,
    msg: &str,
    flags: Flags,
)
    requires
        left.opts == right.opts,
        old(left_states)@ == old(right_states)@,
        call_ensures(
            warn::warn_internal,
            (left, left_states, warning, source, msg, flags),
            left_result,
        ),
        call_ensures(
            warn::warn_internal,
            (right, right_states, warning, source, msg, flags),
            right_result,
        ),
    ensures
        match (left_result, right_result) {
            (Err(left), Err(right)) => left.message@ == right.message@,
            (Ok(left), Ok(right)) => left is Some <==> right is Some,
            _ => false,
        },
        final(left_states)@ == final(right_states)@,
{
}

/// A second call with the same kind of warning neither makes the remark about a bug nor, if the
/// first one gave a line, says how to silence the warning. If it is to be printed once, it gives no
/// line after one.
pub proof fn law_second_warning_does_not_repeat(
    first: &LightContext,
    first_states: &mut WarningStateMap,
    first_source: Option<&str>,
    first_msg: &str,
    first_flags: Flags,
    first_result: Result<Option<String>, Error>,
    second: &LightContext,
    second_states: &mut WarningStateMap,
    second_source: Option<&str>,
    second_msg: &str,
    second_flags: Flags,
    second_result: Result<Option<String>, Error>,
    warning: Warning,
)
    requires
        final(first_states)@ == old(second_states)@,
        call_ensures(
            warn::warn_internal,
            (first, first_states, warning, first_source, first_msg, first_flags),
            first_result,
        ),
        call_ensures(
            warn::warn_internal,
            (second, second_states, warning, second_source, second_msg, second_flags),
            second_result,
        ),
    ensures
        second_result matches Err(error) ==> error.message@ == second_msg@,
        (first_result matches Ok(line) && line is Some) && second_flags.is_once() ==> !(second_result
            matches Ok(line) && line is Some),
        (first_result matches Ok(line) && line is Some) && !second.is_terminal && second_source
            is None ==> (second_result matches Ok(Some(line)) ==> line@ =~= "Warning"@ + ": "@
            + second_msg@),
{
}

/// A warning of every kind but the one that stands for all can be reported, whatever the options, the
/// source, the message, the flags and what has been printed.
pub proof fn law_every_kind_can_be_reported(
    context: &LightContext,
    states: &mut WarningStateMap,
    warning: Warning,
    source: &str,
    msg: &str,
    flags: Flags,
)
    requires
        warning != Warning::All,
    ensures
        call_requires(warn::warn, (context, states, warning, msg, flags)),
        call_requires(warn::source_warn, (context, states, warning, source, msg, flags)),
        call_requires(warn::warn_internal, (context, states, warning, Some(source), msg, flags)),
        call_requires(warn::warn_internal, (context, states, warning, None::<&str>, msg, flags)),
        call_requires(warn::may_be_bug, (warning,)),
{
}

/// At first, nothing has been printed about any kind of warning. Of the two flags, one says that a
/// warning is to be printed once, and the other does not.
pub proof fn law_at_first(states: WarningStateMap, once: Flags, empty: Flags)
    requires
        call_ensures(WarningStateMap::new, (), states),
        call_ensures(Flags::once, (), once),
        call_ensures(Flags::empty, (), empty),
    ensures
        forall|warning: Warning| !#[trigger] states@.contains_key(warning),
        once.is_once(),
        !empty.is_once(),
{
}

/// Flags contain the flag for once exactly if they say that a warning is to be printed once.
pub proof fn law_once_is_a_flag(flags: Flags, once: Flags, contained: bool)
    requires
        call_ensures(Flags::once, (), once),
        call_ensures(Flags::contains, (&flags, once), contained),
    ensures
        contained <==> flags.is_once(),
{
}

/// A note reads: the label, in bold and green on a terminal; a colon; and the message. There is one
/// exactly if something may be printed.
pub proof fn law_note_reads_in_order(context: &LightContext, msg: &str, line: Option<String>)
    requires
        call_ensures(warn::note, (context, msg), line),
    ensures
        match line {
            None => context.opts.quiet,
            Some(line) => {
                let label = if context.is_terminal {
                    "\u{1b}[1;32m"@ + "Note"@ + "\u{1b}[0m"@
                } else {
                    "Note"@
                };
                !context.opts.quiet && line@ == label + ": "@ + msg@
            },
        },
{
}

/// The kinds of warnings that may be due to a bug are three.
pub proof fn law_suspects_are_three(warning: Warning, may_be_bug: bool)
    requires
        call_ensures(warn::may_be_bug, (warning,), may_be_bug),
    ensures
        may_be_bug <==> warning == Warning::InstrumentationNonbuildable || warning
            == Warning::ModulePathUnknown || warning == Warning::RunTestFailed,
{
}

/// A warning's name is its identifier, with a hyphen before each capital but the first one, and all
/// of it in lower case: without the hyphens, it has as many characters, and each is the same letter.
pub proof fn law_name_spells_the_identifier(warning: Warning, name: String, identifier: &'static str)
    requires
        call_ensures(Warning::to_string, (&warning,), name),
        call_ensures(Warning::identifier, (&warning,), identifier),
    ensures
        ({
            let letters = name@.filter(|c: char| c != '-');
            &&& letters.len() == identifier@.len()
            &&& forall|i: int|
                0 <= i < identifier@.len() ==> letters[i] as u32 == #[trigger] identifier@[i] as u32
                    || letters[i] as u32 == identifier@[i] as u32 + 32
        }),
{
    crate::warning::lemma_name_spells_the_identifier(warning);
}

} // verus!
