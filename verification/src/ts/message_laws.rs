//! What comes of dry runs and of decisions about tests, given the messages that were shown and the
//! options.
//!
//! The laws are about any call of the methods of [`Inner`]. `inner` and `states` are what the backend
//! knows and what has been printed, before and after the call.

use vstd::prelude::*;
use vstd::string::*;

use crate::emitted::WarningStateMap;
use crate::quote;
use crate::ts::inner::Inner;
use crate::ts::messages;
use crate::ts::messages::{DryRunError, ExecDecision, ItMessageState, Messages};
use crate::ts::span;
use crate::ts::span::{SourceFile, Span};
use crate::warn::{Error, LightContext};
use crate::warning::Warning;

verus! {

/// A new backend knows no file, and has the settings that it was given.
pub proof fn law_new_backend_knows_nothing<P, E>(
    subdir: Vec<u8>,
    path_predicate: Option<P>,
    it_message_extractor: E,
    inner: Inner<P, E>,
    kept_subdir: &Vec<u8>,
)
    requires
        call_ensures(Inner::<P, E>::new, (subdir, path_predicate, it_message_extractor), inner),
        call_ensures(Inner::<P, E>::subdir, (&inner,), kept_subdir),
    ensures
        forall|file: Seq<u8>| !#[trigger] inner.messages().contains_key(file),
        inner.path_predicate() == path_predicate,
        inner.it_message_extractor() == it_message_extractor,
        kept_subdir@ == subdir@,
{
}

/// A message of which nothing is known was not found.
pub proof fn law_unknown_messages_were_not_found(state: ItMessageState)
    requires
        call_ensures(<ItMessageState as Default>::default, (), state),
    ensures
        state == ItMessageState::NotFound,
{
}

/// What a backend may be asked: anything about any source file whose path has no redundancy, but for
/// a decision about a test only if the file is known.
pub proof fn law_what_a_backend_may_be_asked<P, E>(
    inner: &mut Inner<P, E>,
    source_file: &SourceFile,
    it_messages: Result<Vec<String>, Error>,
    context: &LightContext,
    states: &mut WarningStateMap,
    test_name: &str,
    span: &Span,
    source: &str,
    span_id: &str,
)
    requires
        old(inner).wf(),
        span::is_normal_path(source_file.path@),
        span::is_normal_path(span.source_file.path@),
    ensures
        call_requires(Inner::<P, E>::record_it_messages, (inner, source_file, it_messages)),
        call_requires(Inner::<P, E>::is_known, (&*old(inner), source_file)),
        call_requires(Inner::<P, E>::statement_prefix_and_suffix, (&*old(inner), span_id)),
        old(inner).messages().contains_key(span.source_file.path@) ==> call_requires(
            Inner::<P, E>::exec,
            (inner, context, states, test_name, span, source),
        ),
{
}

/// Whatever a backend is asked, it can be asked again.
pub proof fn law_backends_stay_well_formed<P, E>(
    recorder: &mut Inner<P, E>,
    source_file: &SourceFile,
    it_messages: Result<Vec<String>, Error>,
    recorded: Result<(), DryRunError>,
    decider: &mut Inner<P, E>,
    context: &LightContext,
    states: &mut WarningStateMap,
    test_name: &str,
    span: &Span,
    source: &str,
    decided: Result<ExecDecision, Error>,
    subdir: Vec<u8>,
    path_predicate: Option<P>,
    it_message_extractor: E,
    made: Inner<P, E>,
)
    requires
        call_ensures(
            Inner::<P, E>::record_it_messages,
            (recorder, source_file, it_messages),
            recorded,
        ),
        call_ensures(
            Inner::<P, E>::exec,
            (decider, context, states, test_name, span, source),
            decided,
        ),
        call_ensures(Inner::<P, E>::new, (subdir, path_predicate, it_message_extractor), made),
    ensures
        made.wf(),
        final(recorder).wf(),
        final(decider).wf(),
{
}

/// Recording all of `it_messages` for a file succeeds. Each of them is then found in that file,
/// however many there are. Every other message has an entry exactly if it had one, with the same
/// state. Nothing changes about other files, and the settings stay.
pub proof fn law_each_recorded_message_is_found<P, E>(
    inner: &mut Inner<P, E>,
    source_file: &SourceFile,
    it_messages: Vec<String>,
    result: Result<(), DryRunError>,
)
    requires
        call_ensures(
            Inner::<P, E>::record_it_messages,
            (inner, source_file, Ok::<Vec<String>, Error>(it_messages)),
            result,
        ),
    ensures
        result is Ok,
        final(inner).messages().contains_key(source_file.path@),
        forall|i: int|
            0 <= i < it_messages@.len() ==> {
                let message = (#[trigger] it_messages@[i])@;
                let after = final(inner).messages()[source_file.path@];
                after.contains_key(message) && after[message] == ItMessageState::Found
            },
        forall|message: Seq<char>|
            #![trigger final(inner).messages()[source_file.path@].contains_key(message)]
            #![trigger final(inner).messages()[source_file.path@][message]]
            (forall|i: int| 0 <= i < it_messages@.len() ==> (#[trigger] it_messages@[i])@ != message)
                ==> {
                let before = old(inner).messages();
                let after = final(inner).messages()[source_file.path@];
                let known = before.contains_key(source_file.path@)
                    && before[source_file.path@].contains_key(message);
                &&& after.contains_key(message) == known
                &&& known ==> after[message] == before[source_file.path@][message]
            },
        forall|other: Seq<u8>|
            #![trigger final(inner).messages().contains_key(other)]
            #![trigger final(inner).messages()[other]]
            other != source_file.path@ ==> {
                let (before, after) = (old(inner).messages(), final(inner).messages());
                &&& after.contains_key(other) == before.contains_key(other)
                &&& before.contains_key(other) ==> after[other] == before[other]
            },
        final(inner).subdir_spec() == old(inner).subdir_spec(),
        final(inner).path_predicate() == old(inner).path_predicate(),
        final(inner).it_message_extractor() == old(inner).it_message_extractor(),
{
    lemma_recorded(
        old(inner).messages(),
        source_file@,
        it_messages,
        final(inner).messages(),
        result,
    );
}

proof fn lemma_recorded(
    before: Map<Seq<u8>, Messages>,
    file: Seq<u8>,
    it_messages: Vec<String>,
    after: Map<Seq<u8>, Messages>,
    result: Result<(), DryRunError>,
)
    requires
        messages::recorded(before, file, Ok(it_messages), after, result),
    ensures
        result is Ok,
        after.contains_key(file),
        forall|i: int|
            0 <= i < it_messages@.len() ==> {
                let message = (#[trigger] it_messages@[i])@;
                after[file].contains_key(message) && after[file][message] == ItMessageState::Found
            },
        forall|message: Seq<char>|
            #![trigger after[file].contains_key(message)]
            #![trigger after[file][message]]
            (forall|i: int| 0 <= i < it_messages@.len() ==> (#[trigger] it_messages@[i])@ != message)
                ==> {
                let known = before.contains_key(file) && before[file].contains_key(message);
                &&& after[file].contains_key(message) == known
                &&& known ==> after[file][message] == before[file][message]
            },
        forall|other: Seq<u8>|
            #![trigger after.contains_key(other)]
            #![trigger after[other]]
            other != file ==> {
                &&& after.contains_key(other) == before.contains_key(other)
                &&& before.contains_key(other) ==> after[other] == before[other]
            },
{
    let found = messages::texts(it_messages@);
    assert forall|i: int| 0 <= i < it_messages@.len() implies found.contains(
        (#[trigger] it_messages@[i])@,
    ) by {
        assert(found[i] == it_messages@[i]@);
    }
    assert forall|message: Seq<char>| #[trigger] found.contains(message) implies exists|i: int|
        0 <= i < it_messages@.len() && (#[trigger] it_messages@[i])@ == message by {
        let i = choose|i: int| 0 <= i < found.len() && found[i] == message;
        assert(it_messages@[i]@ == message);
    }
}

/// If the messages cannot be got out of the output, that error is returned. What is known of
/// messages stays the same, but the file counts as seen.
pub proof fn law_invalid_output_shows_nothing<P, E>(
    inner: &mut Inner<P, E>,
    source_file: &SourceFile,
    error: Error,
    result: Result<(), DryRunError>,
)
    requires
        call_ensures(
            Inner::<P, E>::record_it_messages,
            (inner, source_file, Err::<Vec<String>, Error>(error)),
            result,
        ),
    ensures
        result == Err::<(), DryRunError>(DryRunError::OutputInvalid(error)),
        forall|other: Seq<u8>| #[trigger]
            final(inner).messages().contains_key(other) <==> old(inner).messages().contains_key(
                other,
            ) || other == source_file.path@,
        forall|other: Seq<u8>|
            old(inner).messages().contains_key(other) ==> #[trigger] final(inner).messages()[other]
                == old(inner).messages()[other],
        !old(inner).messages().contains_key(source_file.path@) ==> forall|message: Seq<char>|
            !#[trigger] final(inner).messages()[source_file.path@].contains_key(message),
        final(inner).subdir_spec() == old(inner).subdir_spec(),
        final(inner).path_predicate() == old(inner).path_predicate(),
        final(inner).it_message_extractor() == old(inner).it_message_extractor(),
{
}

/// A dry run whose command failed is an error and teaches nothing. Any other is what the extractor
/// makes of the output: its error, or success with each of its messages found in the file and every
/// other message as it was.
pub proof fn law_dry_run_finds_what_the_extractor_yields<
    P,
    E: Fn(&[u8]) -> Result<Vec<String>, Error>,
>(
    inner: &mut Inner<P, E>,
    source_file: &SourceFile,
    success: bool,
    stdout: &[u8],
    result: Result<(), DryRunError>,
)
    requires
        call_ensures(Inner::<P, E>::dry_run, (inner, source_file, success, stdout), result),
    ensures
        !success ==> result == Err::<(), DryRunError>(DryRunError::CommandFailed),
        !success ==> final(inner).messages() == old(inner).messages(),
        success ==> exists|yielded: Result<Vec<String>, Error>|
            {
                let (before, after) = (old(inner).messages(), final(inner).messages());
                let file = source_file.path@;
                &&& #[trigger] old(inner).it_message_extractor().ensures((stdout,), yielded)
                &&& after.contains_key(file)
                &&& match yielded {
                    Ok(it_messages) => {
                        &&& result is Ok
                        &&& forall|i: int|
                            0 <= i < it_messages@.len() ==> after[file].contains_key(
                                (#[trigger] it_messages@[i])@,
                            ) && after[file][it_messages@[i]@] == ItMessageState::Found
                        &&& forall|message: Seq<char>| #[trigger]
                            after[file].contains_key(message) ==> (before.contains_key(file)
                                && before[file].contains_key(message) && after[file][message]
                                == before[file][message]) || exists|i: int|
                                0 <= i < it_messages@.len() && (#[trigger] it_messages@[i])@
                                    == message
                        &&& before.contains_key(file) ==> forall|message: Seq<char>| #[trigger]
                            before[file].contains_key(message) ==> after[file].contains_key(message)
                    },
                    Err(error) => {
                        &&& result == Err::<(), DryRunError>(DryRunError::OutputInvalid(error))
                        &&& before.contains_key(file) ==> after[file] == before[file]
                        &&& !before.contains_key(file) ==> after[file] == Messages::empty()
                    },
                }
            },
        forall|other: Seq<u8>|
            #![trigger final(inner).messages().contains_key(other)]
            #![trigger final(inner).messages()[other]]
            other != source_file.path@ ==> {
                let (before, after) = (old(inner).messages(), final(inner).messages());
                &&& after.contains_key(other) == before.contains_key(other)
                &&& before.contains_key(other) ==> after[other] == before[other]
            },
        final(inner).subdir_spec() == old(inner).subdir_spec(),
        final(inner).path_predicate() == old(inner).path_predicate(),
        final(inner).it_message_extractor() == old(inner).it_message_extractor(),
{
    let (before, after) = (old(inner).messages(), final(inner).messages());
    let file = source_file@;
    if success {
        let yielded = choose|yielded: Result<Vec<String>, Error>| #[trigger]
            old(inner).it_message_extractor().ensures((stdout,), yielded) && messages::recorded(
                before,
                file,
                yielded,
                after,
                result,
            );
        match yielded {
            Ok(it_messages) => {
                lemma_recorded(before, file, it_messages, after, result);
                assert forall|message: Seq<char>| #[trigger]
                    after[file].contains_key(message) implies (before.contains_key(file)
                    && before[file].contains_key(message) && after[file][message]
                    == before[file][message]) || exists|i: int|
                    0 <= i < it_messages@.len() && (#[trigger] it_messages@[i])@ == message by {}
                if before.contains_key(file) {
                    assert forall|message: Seq<char>| #[trigger]
                        before[file].contains_key(message) implies after[file].contains_key(
                        message,
                    ) by {
                        if exists|i: int|
                            0 <= i < it_messages@.len() && (#[trigger] it_messages@[i])@
                                == message {
                            let i = choose|i: int|
                                0 <= i < it_messages@.len() && (#[trigger] it_messages@[i])@
                                    == message;
                            assert(after[file].contains_key(it_messages@[i]@));
                        } else {
                            assert(after[file].contains_key(message) == before[file].contains_key(
                                message,
                            ));
                        }
                    }
                }
            },
            Err(error) => {},
        }
        assert(old(inner).it_message_extractor().ensures((stdout,), yielded));
    }
}

/// A file is known exactly if there is an entry for it.
pub proof fn law_known_files_have_an_entry<P, E>(
    inner: &Inner<P, E>,
    source_file: &SourceFile,
    known: bool,
)
    requires
        call_ensures(Inner::<P, E>::is_known, (inner, source_file), known),
    ensures
        known <==> inner.messages().contains_key(source_file.path@),
{
}

/// A test is run exactly if a dry run has shown its message. It is an error exactly if no dry run
/// has, the user has not been told, and the options deny all warnings or this one. It is skipped
/// with a line to print exactly if no dry run has shown the message, the user has not been told, and
/// the options neither deny the warning, nor allow it, nor ask for quiet. Otherwise it is skipped
/// without a word. The terminal does not matter.
pub proof fn law_which_tests_are_run<P, E>(
    inner: &mut Inner<P, E>,
    context: &LightContext,
    states: &mut WarningStateMap,
    test_name: &str,
    quoted_name: &str,
    span: &Span,
    source: &str,
    result: Result<ExecDecision, Error>,
)
    requires
        old(inner).messages().contains_key(span.source_file.path@),
        ({
            ||| call_ensures(
                Inner::<P, E>::exec_quoted,
                (inner, context, states, test_name, quoted_name, span, source),
                result,
            )
            ||| quoted_name@ == quote::quoted(test_name@) && call_ensures(
                Inner::<P, E>::exec,
                (inner, context, states, test_name, span, source),
                result,
            )
        }),
    ensures
        ({
            let entries = old(inner).messages()[span.source_file.path@];
            let known = entries.contains_key(test_name@);
            let shown = known && entries[test_name@] == ItMessageState::Found;
            let told = known && entries[test_name@] == ItMessageState::WarningEmitted;
            let denied = context.opts.deny@.contains(Warning::All) || context.opts.deny@.contains(
                Warning::ItMessageNotFound,
            );
            let allowed = context.opts.quiet || context.opts.allow@.contains(Warning::All)
                || context.opts.allow@.contains(Warning::ItMessageNotFound);
            match result {
                Ok(ExecDecision::Run) => shown,
                Err(_) => !shown && !told && denied,
                Ok(ExecDecision::Skip(Some(_))) => !shown && !told && !denied && !allowed,
                Ok(ExecDecision::Skip(None)) => !shown && (told || !denied && allowed),
            }
        }),
{
    crate::emitted::lemma_empty_flags();
}

/// The error about a message that was not found names the message. So does the line, behind the
/// source and the label, and it ends with how to silence the warning unless that has been said.
pub proof fn law_what_is_said_of_a_missing_message<P, E>(
    inner: &mut Inner<P, E>,
    context: &LightContext,
    states: &mut WarningStateMap,
    test_name: &str,
    quoted_name: &str,
    span: &Span,
    source: &str,
    result: Result<ExecDecision, Error>,
)
    requires
        old(inner).messages().contains_key(span.source_file.path@),
        ({
            ||| call_ensures(
                Inner::<P, E>::exec_quoted,
                (inner, context, states, test_name, quoted_name, span, source),
                result,
            )
            ||| quoted_name@ == quote::quoted(test_name@) && call_ensures(
                Inner::<P, E>::exec,
                (inner, context, states, test_name, span, source),
                result,
            )
        }),
    ensures
        ({
            let msg = "`it` message "@ + quoted_name@ + " was not found during dry run"@;
            let label = if context.is_terminal {
                "\u{1b}[1;33m"@ + "Warning"@ + "\u{1b}[0m"@
            } else {
                "Warning"@
            };
            let said = old(states)@.contains_key(Warning::ItMessageNotFound)
                && old(states)@[Warning::ItMessageNotFound].allow_msg;
            let hint = if said {
                Seq::empty()
            } else {
                "\nSilence this warning with: --allow it-message-not-found"@
            };
            match result {
                Err(error) => error.message@ == msg,
                Ok(ExecDecision::Skip(Some(line))) => line@ =~= source@ + ": "@ + label + ": "@
                    + msg + hint,
                _ => true,
            }
        }),
{
    reveal_strlit("\nSilence this warning with: --allow it-message-not-found");
    reveal_strlit("\nSilence this warning with: --allow ");
    reveal_strlit("it-message-not-found");
    assert("\nSilence this warning with: --allow "@ + "it-message-not-found"@
        =~= "\nSilence this warning with: --allow it-message-not-found"@);
    crate::emitted::lemma_empty_flags();
}

/// A decision about a test changes nothing about other files and other messages, nor the settings. A
/// message that was found stays so. Of one that was not, the user counts as told exactly if they
/// did or the decision is no error.
pub proof fn law_what_a_decision_leaves_behind<P, E>(
    inner: &mut Inner<P, E>,
    context: &LightContext,
    states: &mut WarningStateMap,
    test_name: &str,
    quoted_name: &str,
    span: &Span,
    source: &str,
    result: Result<ExecDecision, Error>,
)
    requires
        old(inner).messages().contains_key(span.source_file.path@),
        ({
            ||| call_ensures(
                Inner::<P, E>::exec_quoted,
                (inner, context, states, test_name, quoted_name, span, source),
                result,
            )
            ||| quoted_name@ == quote::quoted(test_name@) && call_ensures(
                Inner::<P, E>::exec,
                (inner, context, states, test_name, span, source),
                result,
            )
        }),
    ensures
        forall|other: Seq<u8>| #[trigger]
            final(inner).messages().contains_key(other) <==> old(inner).messages().contains_key(
                other,
            ),
        forall|other: Seq<u8>|
            other != span.source_file.path@ && old(inner).messages().contains_key(other)
                ==> #[trigger] final(inner).messages()[other] == old(inner).messages()[other],
        forall|message: Seq<char>|
            #![trigger final(inner).messages()[span.source_file.path@].contains_key(message)]
            #![trigger final(inner).messages()[span.source_file.path@][message]]
            message != test_name@ ==> {
                let before = old(inner).messages()[span.source_file.path@];
                let after = final(inner).messages()[span.source_file.path@];
                &&& after.contains_key(message) == before.contains_key(message)
                &&& before.contains_key(message) ==> after[message] == before[message]
            },
        final(inner).messages()[span.source_file.path@].contains_key(test_name@),
        ({
            let before = old(inner).messages()[span.source_file.path@];
            let after = final(inner).messages()[span.source_file.path@];
            let known = before.contains_key(test_name@);
            let shown = known && before[test_name@] == ItMessageState::Found;
            let told = known && before[test_name@] == ItMessageState::WarningEmitted;
            after[test_name@] == if shown {
                ItMessageState::Found
            } else if told || result is Ok {
                ItMessageState::WarningEmitted
            } else {
                ItMessageState::NotFound
            }
        }),
        final(inner).subdir_spec() == old(inner).subdir_spec(),
        final(inner).path_predicate() == old(inner).path_predicate(),
        final(inner).it_message_extractor() == old(inner).it_message_extractor(),
{
}

/// A decision about a test leaves what has been printed about warnings as it is, unless the message
/// was not found and the user has not been told. In that case it changes what has been printed about
/// that kind of warning alone, and marks the warning and the hint as printed exactly if they were or
/// there is a line to print.
pub proof fn law_what_a_decision_says_is_remembered<P, E>(
    inner: &mut Inner<P, E>,
    context: &LightContext,
    states: &mut WarningStateMap,
    test_name: &str,
    quoted_name: &str,
    span: &Span,
    source: &str,
    result: Result<ExecDecision, Error>,
)
    requires
        old(inner).messages().contains_key(span.source_file.path@),
        ({
            ||| call_ensures(
                Inner::<P, E>::exec_quoted,
                (inner, context, states, test_name, quoted_name, span, source),
                result,
            )
            ||| quoted_name@ == quote::quoted(test_name@) && call_ensures(
                Inner::<P, E>::exec,
                (inner, context, states, test_name, span, source),
                result,
            )
        }),
    ensures
        ({
            let entries = old(inner).messages()[span.source_file.path@];
            let due = !entries.contains_key(test_name@) || entries[test_name@]
                == ItMessageState::NotFound;
            let kind = Warning::ItMessageNotFound;
            let known = old(states)@.contains_key(kind);
            let before = old(states)@[kind];
            let after = final(states)@[kind];
            let printed = result matches Ok(ExecDecision::Skip(line)) && line is Some;
            if due {
                &&& forall|other: Warning|
                    #![trigger final(states)@.contains_key(other)]
                    #![trigger final(states)@[other]]
                    other != kind ==> {
                        &&& final(states)@.contains_key(other) == old(states)@.contains_key(other)
                        &&& old(states)@.contains_key(other) ==> final(states)@[other]
                            == old(states)@[other]
                    }
                &&& final(states)@.contains_key(kind)
                &&& after.warning == (known && before.warning || printed)
                &&& after.allow_msg == (known && before.allow_msg || printed)
                &&& after.bug_msg == (known && before.bug_msg)
            } else {
                final(states)@ == old(states)@
            }
        }),
{
    crate::emitted::lemma_empty_flags();
}

/// Of two decisions about the same test in a row, the second one says nothing unless the first was an
/// error, and it runs the test exactly if the first one does.
pub proof fn law_second_decision_does_not_repeat<P, E>(
    first: &mut Inner<P, E>,
    first_context: &LightContext,
    first_states: &mut WarningStateMap,
    first_result: Result<ExecDecision, Error>,
    second: &mut Inner<P, E>,
    second_context: &LightContext,
    second_states: &mut WarningStateMap,
    second_result: Result<ExecDecision, Error>,
    test_name: &str,
    span: &Span,
    source: &str,
)
    requires
        old(first).messages().contains_key(span.source_file.path@),
        final(first).messages() == old(second).messages(),
        call_ensures(
            Inner::<P, E>::exec,
            (first, first_context, first_states, test_name, span, source),
            first_result,
        ),
        call_ensures(
            Inner::<P, E>::exec,
            (second, second_context, second_states, test_name, span, source),
            second_result,
        ),
    ensures
        first_result == Ok::<ExecDecision, Error>(ExecDecision::Run) <==> second_result == Ok::<
            ExecDecision,
            Error,
        >(ExecDecision::Run),
        first_result is Ok ==> second_result == Ok::<ExecDecision, Error>(ExecDecision::Run)
            || second_result == Ok::<ExecDecision, Error>(ExecDecision::Skip(None)),
{
    crate::emitted::lemma_empty_flags();
}

/// A test that a recorded dry run has just shown is run, whatever was known before, and whatever the
/// options and the other messages are. One that it did not show is not run unless it would have been.
pub proof fn law_shown_tests_are_run<P, E>(
    first: &mut Inner<P, E>,
    it_messages: Vec<String>,
    recorded: Result<(), DryRunError>,
    second: &mut Inner<P, E>,
    context: &LightContext,
    states: &mut WarningStateMap,
    test_name: &str,
    span: &Span,
    source: &str,
    result: Result<ExecDecision, Error>,
)
    requires
        final(first).messages() == old(second).messages(),
        call_ensures(
            Inner::<P, E>::record_it_messages,
            (first, &span.source_file, Ok::<Vec<String>, Error>(it_messages)),
            recorded,
        ),
        call_ensures(
            Inner::<P, E>::exec,
            (second, context, states, test_name, span, source),
            result,
        ),
    ensures
        result == Ok::<ExecDecision, Error>(ExecDecision::Run) <==> {
            ||| exists|i: int|
                0 <= i < it_messages@.len() && (#[trigger] it_messages@[i])@ == test_name@
            ||| {
                let before = old(first).messages();
                let file = span.source_file.path@;
                &&& before.contains_key(file)
                &&& before[file].contains_key(test_name@)
                &&& before[file][test_name@] == ItMessageState::Found
            }
        },
{
    let (before, after) = (old(first).messages(), final(first).messages());
    let file = span.source_file@;
    lemma_recorded(before, file, it_messages, after, recorded);
    if exists|i: int| 0 <= i < it_messages@.len() && (#[trigger] it_messages@[i])@ == test_name@ {
        let i = choose|i: int|
            0 <= i < it_messages@.len() && (#[trigger] it_messages@[i])@ == test_name@;
        assert(after[file][it_messages@[i]@] == ItMessageState::Found);
    } else {
        assert(after[file].contains_key(test_name@) ==> before[file].contains_key(test_name@));
    }
}

/// The warning about a message that was not found quotes the message between fixed words.
pub proof fn law_missing_message_is_quoted(quoted_name: &str, msg: String)
    requires
        call_ensures(messages::not_found_message, (quoted_name,), msg),
    ensures
        msg@ == "`it` message "@ + quoted_name@ + " was not found during dry run"@,
{
}

/// Source files are the same exactly if their paths are, byte by byte.
pub proof fn law_source_file_is_its_path(left: SourceFile, right: SourceFile)
    ensures
        left@ == left.path@,
        left@ == right@ <==> left.path@.len() == right.path@.len() && forall|i: int|
            0 <= i < left.path@.len() ==> #[trigger] left.path@[i] == right.path@[i],
{
    if left.path@.len() == right.path@.len() && forall|i: int|
        0 <= i < left.path@.len() ==> #[trigger] left.path@[i] == right.path@[i] {
        assert(left.path@ =~= right.path@);
    }
}

/// A walk goes into whatever is no file. Of files, it looks only into those whose extension is one of
/// two, letter by letter, and into those exactly as the path predicate says, or all without one.
pub proof fn law_walk_looks_into_scripts<P: Fn(&[u8]) -> bool, E>(
    inner: &Inner<P, E>,
    path: &[u8],
    is_file: bool,
    extension: Option<&String>,
    visited: bool,
)
    requires
        call_ensures(Inner::<P, E>::filter_entry, (inner, path, is_file, extension), visited),
    ensures
        !is_file ==> visited,
        is_file ==> {
            let script = extension matches Some(extension) && (extension@ =~= seq!['j', 's']
                || extension@ =~= seq!['t', 's']);
            if script {
                match inner.path_predicate() {
                    Some(predicate) => predicate.ensures((path,), visited),
                    None => visited,
                }
            } else {
                !visited
            }
        },
{
    reveal_strlit("js");
    reveal_strlit("ts");
    assert("js"@ =~= seq!['j', 's']);
    assert("ts"@ =~= seq!['t', 's']);
}

/// What comes before a statement compares the environment with the id of the statement's span, and
/// with all of it. What comes behind closes the brace.
pub proof fn law_prefix_compares_the_whole_id<P, E>(
    inner: &Inner<P, E>,
    span_id: &str,
    result: Result<(String, String), Error>,
)
    requires
        call_ensures(Inner::<P, E>::statement_prefix_and_suffix, (inner, span_id), result),
    ensures
        result matches Ok((prefix, suffix)) && prefix@
            == "if (process.env.NECESSIST_REMOVAL != \""@ + span_id@ + "\") { "@ && suffix@ == " }"@,
{
}

} // verus!
