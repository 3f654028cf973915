//! What is known of `it` messages, and what follows for the tests that they name.

use vstd::prelude::*;
use vstd::string::*;

use crate::emitted;
use crate::emitted::{Emitted, Flags, WarningStateMap};
use crate::ts::assoc::AssocMap;
use crate::warn;
use crate::warn::{source_warn, Error, LightContext, Outcome};
use crate::warning::Warning;

verus! {

/// What is known of an `it` message.
#[derive(Clone, Copy, Debug, PartialEq, Eq, Structural)]
pub enum ItMessageState {
    /// The dry run did not show it.
    NotFound,
    /// The dry run showed it.
    Found,
    /// The dry run did not show it, and the user has been told.
    WarningEmitted,
}

impl Default for ItMessageState {
    fn default() -> (state: ItMessageState)
        ensures
            state == ItMessageState::NotFound,
    {
        ItMessageState::NotFound
    }
}

/// What is known of the `it` messages of a source file.
pub type Messages = Map<Seq<char>, ItMessageState>;

/// What is known of a message: nothing was found, if it has no entry.
pub open spec fn message_state(messages: Messages, message: Seq<char>) -> ItMessageState {
    if messages.contains_key(message) {
        messages[message]
    } else {
        ItMessageState::NotFound
    }
}

/// What is known once a dry run has shown the messages in `found`.
pub open spec fn with_found(messages: Messages, found: Seq<Seq<char>>) -> Messages {
    Map::new(
        |message: Seq<char>| messages.contains_key(message) || found.contains(message),
        |message: Seq<char>|
            if found.contains(message) {
                ItMessageState::Found
            } else {
                messages[message]
            },
    )
}

/// What is known of the messages of `file`: nothing, if it has not been seen.
pub open spec fn file_messages(messages: Map<Seq<u8>, Messages>, file: Seq<u8>) -> Messages {
    if messages.contains_key(file) {
        messages[file]
    } else {
        Map::empty()
    }
}

/// The messages' texts.
pub open spec fn texts(messages: Seq<String>) -> Seq<Seq<char>> {
    messages.map_values(|message: String| message@)
}

/// What is known once a dry run of `file` has shown the messages in `found`.
pub open spec fn after_dry_run(
    messages: Map<Seq<u8>, Messages>,
    file: Seq<u8>,
    found: Seq<Seq<char>>,
) -> Map<Seq<u8>, Messages> {
    messages.insert(file, with_found(file_messages(messages, file), found))
}

/// What is known once a dry run of `file` has put out what shows no messages: that there is the
/// file.
pub open spec fn after_invalid_output(messages: Map<Seq<u8>, Messages>, file: Seq<u8>) -> Map<
    Seq<u8>,
    Messages,
> {
    messages.insert(file, file_messages(messages, file))
}

/// Why a dry run fails.
pub enum DryRunError {
    /// The command failed.
    CommandFailed,
    /// The messages cannot be got out of the command's output.
    OutputInvalid(Error),
}

/// What becomes of `before` when a dry run of `file` yields `it_messages`, and what is returned.
pub open spec fn recorded(
    before: Map<Seq<u8>, Messages>,
    file: Seq<u8>,
    it_messages: Result<Vec<String>, Error>,
    after: Map<Seq<u8>, Messages>,
    result: Result<(), DryRunError>,
) -> bool {
    match it_messages {
        Ok(it_messages) => {
            &&& result == Ok::<(), DryRunError>(())
            &&& after == after_dry_run(before, file, texts(it_messages@))
        },
        Err(error) => {
            &&& result == Err::<(), DryRunError>(DryRunError::OutputInvalid(error))
            &&& after == after_invalid_output(before, file)
        },
    }
}

/// Whether to run a test without a certain part of it.
pub enum ExecDecision {
    /// The test is to be run.
    Run,
    /// The test is not to be run. The line, if any, is to be printed.
    Skip(Option<String>),
}

/// What is decided about running a test.
pub enum Decision {
    Run,
    Skip(Option<Seq<char>>),
    Error(Seq<char>),
}

/// The decision that a result of [`crate::ts::inner::Inner::exec`] stands for.
pub open spec fn decision(result: Result<ExecDecision, Error>) -> Decision {
    match result {
        Ok(ExecDecision::Run) => Decision::Run,
        Ok(ExecDecision::Skip(Some(line))) => Decision::Skip(Some(line@)),
        Ok(ExecDecision::Skip(None)) => Decision::Skip(None),
        Err(error) => Decision::Error(error.message@),
    }
}

/// What is decided about a test whose message has this state. `outcome` is what comes of the
/// warning that the message was not found, should it be due.
pub open spec fn decided(state: ItMessageState, outcome: Outcome) -> Decision {
    match state {
        ItMessageState::Found => Decision::Run,
        ItMessageState::WarningEmitted => Decision::Skip(None),
        ItMessageState::NotFound => match outcome {
            Outcome::Denied(message) => Decision::Error(message),
            Outcome::Silent => Decision::Skip(None),
            Outcome::Printed(line) => Decision::Skip(Some(line)),
        },
    }
}

/// The state of a test's message once it has been decided about.
pub open spec fn state_after(state: ItMessageState, outcome: Outcome) -> ItMessageState {
    if state is NotFound && outcome !is Denied {
        ItMessageState::WarningEmitted
    } else {
        state
    }
}

/// What is known of a message of `file`.
pub open spec fn known_state(
    messages: Map<Seq<u8>, Messages>,
    file: Seq<u8>,
    message: Seq<char>,
) -> ItMessageState {
    message_state(file_messages(messages, file), message)
}

/// What is known once the test `test_name` of `file` has been decided about.
pub open spec fn after_exec(
    messages: Map<Seq<u8>, Messages>,
    file: Seq<u8>,
    test_name: Seq<char>,
    outcome: Outcome,
) -> Map<Seq<u8>, Messages> {
    messages.insert(
        file,
        file_messages(messages, file).insert(
            test_name,
            state_after(known_state(messages, file, test_name), outcome),
        ),
    )
}

/// The warning that a message was not found, given the message in quotes.
pub open spec fn not_found_msg(quoted_name: Seq<char>) -> Seq<char> {
    "`it` message "@ + quoted_name + " was not found during dry run"@
}

/// What comes of the warning that a message was not found.
pub open spec fn not_found_outcome(
    context: LightContext,
    states: Map<Warning, Emitted>,
    source: Seq<char>,
    quoted_name: Seq<char>,
) -> Outcome {
    warn::warned(
        context,
        emitted::emitted(states, Warning::ItMessageNotFound),
        Warning::ItMessageNotFound,
        Some(source),
        not_found_msg(quoted_name),
        Flags::empty_spec(),
    )
}

/// What has been printed about each kind of warning once a test has been decided about.
pub open spec fn states_after(
    context: LightContext,
    states: Map<Warning, Emitted>,
    state: ItMessageState,
) -> Map<Warning, Emitted> {
    if state is NotFound {
        warn::states_after(
            context.opts,
            states,
            Warning::ItMessageNotFound,
            Flags::empty_spec(),
        )
    } else {
        states
    }
}

/// Takes note that `it_messages` were found.
pub(crate) fn insert_found(
    it_message_state_map: &mut AssocMap<String, ItMessageState>,
    it_messages: &Vec<String>,
)
    requires
        old(it_message_state_map).wf(),
    ensures
        final(it_message_state_map).wf(),
        final(it_message_state_map)@ == with_found(old(it_message_state_map)@, texts(it_messages@)),
{
    let ghost before = it_message_state_map@;
    let ghost found = texts(it_messages@);
    assert(it_message_state_map@ =~= with_found(before, found.take(0)));
    for i in 0..it_messages.len()
        invariant
            it_message_state_map.wf(),
            found == texts(it_messages@),
            it_message_state_map@ == with_found(before, found.take(i as int)),
    {
        let ghost message = it_messages@[i as int]@;
        it_message_state_map.insert(it_messages[i].clone(), ItMessageState::Found);
        proof {
            let shorter = found.take(i as int);
            let longer = found.take(i + 1);
            assert(longer =~= shorter.push(message));
            assert(longer[i as int] == message);
            assert forall|other: Seq<char>| #[trigger]
                longer.contains(other) <==> shorter.contains(other) || other == message by {
                if shorter.contains(other) {
                    let j = choose|j: int| 0 <= j < shorter.len() && shorter[j] == other;
                    assert(longer[j] == other);
                }
            }
            assert(it_message_state_map@ =~= with_found(before, longer));
        }
    }
    assert(found.take(it_messages@.len() as int) =~= found);
}

/// Decides about a test in the source file to which `it_message_state_map` belongs.
pub(crate) fn exec_message(
    it_message_state_map: &mut AssocMap<String, ItMessageState>,
    context: &LightContext,
    states: &mut WarningStateMap,
    test_name: String,
    quoted_name: &str,
    source: &str,
) -> (result: Result<ExecDecision, Error>)
    requires
        old(it_message_state_map).wf(),
    ensures
        final(it_message_state_map).wf(),
        ({
            let messages = old(it_message_state_map)@;
            let state = message_state(messages, test_name@);
            let outcome = not_found_outcome(*context, old(states)@, source@, quoted_name@);
            &&& decision(result) == decided(state, outcome)
            &&& final(it_message_state_map)@ == messages.insert(
                test_name@,
                state_after(state, outcome),
            )
            &&& final(states)@ == states_after(*context, old(states)@, state)
        }),
{
    let ghost messages = it_message_state_map@;
    let state: ItMessageState = match it_message_state_map.get(&test_name) {
        Some(state) => *state,
        None => ItMessageState::default(),
    };
    if state != ItMessageState::Found {
        let mut line: Option<String> = None;
        if state == ItMessageState::NotFound {
            match source_warn(
                context,
                states,
                Warning::ItMessageNotFound,
                source,
                not_found_message(quoted_name).as_str(),
                Flags::empty(),
            ) {
                Ok(printed) => {
                    line = printed;
                },
                Err(error) => {
                    it_message_state_map.insert(test_name, state);
                    return Err(error);
                },
            }
            it_message_state_map.insert(test_name, ItMessageState::WarningEmitted);
        }
        assert(it_message_state_map@ =~= messages.insert(
            test_name@,
            ItMessageState::WarningEmitted,
        ));
        return Ok(ExecDecision::Skip(line));
    }
    assert(messages =~= messages.insert(test_name@, state));
    Ok(ExecDecision::Run)
}

/// The warning that a message was not found, given the message in quotes.
pub fn not_found_message(quoted_name: &str) -> (msg: String)
    ensures
        msg@ == not_found_msg(quoted_name@),
{
    let mut msg = "`it` message ".to_owned();
    msg.append(quoted_name);
    msg.append(" was not found during dry run");
    msg
}

} // verus!
