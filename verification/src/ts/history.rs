//! What holds of any sequence of dry runs of source files and decisions about their tests.

use vstd::prelude::*;

use crate::emitted::Emitted;
use crate::ts::messages;
use crate::ts::messages::{Decision, ItMessageState, Messages};
use crate::warn::{LightContext, Outcome};
use crate::warning::Warning;

verus! {

/// A step that a backend takes.
pub enum Step {
    /// A dry run of `file` shows the messages in `found`.
    DryRun { file: Seq<u8>, found: Seq<Seq<char>> },
    /// The messages cannot be got out of the output of a dry run of `file`.
    OutputInvalid { file: Seq<u8> },
    /// It is decided whether to run the test `test_name` of `file`.
    Exec {
        file: Seq<u8>,
        test_name: Seq<char>,
        quoted_name: Seq<char>,
        context: LightContext,
        states: Map<Warning, Emitted>,
        source: Seq<char>,
    },
}

impl Step {
    /// The source file that the step is about.
    pub open spec fn file(self) -> Seq<u8> {
        match self {
            Step::DryRun { file, .. } => file,
            Step::OutputInvalid { file } => file,
            Step::Exec { file, .. } => file,
        }
    }

    /// The two steps decide about the same test.
    pub open spec fn same_test(self, other: Step) -> bool {
        &&& self is Exec
        &&& other is Exec
        &&& self.file() == other.file()
        &&& self->test_name == other->test_name
    }

    /// A dry run of `file` shows `message`.
    pub open spec fn shows(self, file: Seq<u8>, message: Seq<char>) -> bool {
        self is DryRun && self.file() == file && self->found.contains(message)
    }

    /// What comes of the warning that the test's message was not found, should it be due.
    pub open spec fn outcome(self) -> Outcome {
        messages::not_found_outcome(
            self->context,
            self->states,
            self->source,
            self->quoted_name,
        )
    }

    /// What is known of the messages of each file after the step.
    pub open spec fn messages_after(self, before: Map<Seq<u8>, Messages>) -> Map<
        Seq<u8>,
        Messages,
    > {
        match self {
            Step::DryRun { file, found } => messages::after_dry_run(before, file, found),
            Step::OutputInvalid { file } => messages::after_invalid_output(before, file),
            Step::Exec { file, test_name, .. } => messages::after_exec(
                before,
                file,
                test_name,
                self.outcome(),
            ),
        }
    }
}

/// What is known of the messages of each file after the first `n` of `steps`.
pub open spec fn messages_after(
    start: Map<Seq<u8>, Messages>,
    steps: Seq<Step>,
    n: nat,
) -> Map<Seq<u8>, Messages>
    decreases n,
{
    if n == 0 {
        start
    } else {
        steps[n - 1].messages_after(messages_after(start, steps, (n - 1) as nat))
    }
}

/// What is known of `message` of `file` after the first `n` of `steps`.
pub open spec fn state_at(
    start: Map<Seq<u8>, Messages>,
    steps: Seq<Step>,
    file: Seq<u8>,
    message: Seq<char>,
    n: nat,
) -> ItMessageState {
    messages::known_state(messages_after(start, steps, n), file, message)
}

/// What is decided at the step with index `i`.
pub open spec fn decision_at(start: Map<Seq<u8>, Messages>, steps: Seq<Step>, i: nat) -> Decision {
    let step = steps[i as int];
    messages::decided(state_at(start, steps, step.file(), step->test_name, i), step.outcome())
}

/// Steps about other files do not change what is known of a file.
pub proof fn law_files_are_independent(
    start: Map<Seq<u8>, Messages>,
    steps: Seq<Step>,
    file: Seq<u8>,
    i: nat,
    j: nat,
)
    requires
        i <= j <= steps.len(),
        forall|k: int| i <= k < j ==> (#[trigger] steps[k]).file() != file,
    ensures
        messages::file_messages(messages_after(start, steps, i), file) == messages::file_messages(
            messages_after(start, steps, j),
            file,
        ),
    decreases j,
{
    if i < j {
        law_files_are_independent(start, steps, file, i, (j - 1) as nat);
    }
}

/// A message that a dry run showed stays found.
pub proof fn law_found_stays_found(
    start: Map<Seq<u8>, Messages>,
    steps: Seq<Step>,
    file: Seq<u8>,
    message: Seq<char>,
    i: nat,
    j: nat,
)
    requires
        i <= j <= steps.len(),
        state_at(start, steps, file, message, i) is Found,
    ensures
        state_at(start, steps, file, message, j) is Found,
    decreases j,
{
    if i < j {
        law_found_stays_found(start, steps, file, message, i, (j - 1) as nat);
    }
}

/// Once the user has been told that a message was not found, the warning is not due again.
proof fn lemma_told_stays_told(
    start: Map<Seq<u8>, Messages>,
    steps: Seq<Step>,
    file: Seq<u8>,
    message: Seq<char>,
    i: nat,
    j: nat,
)
    requires
        i <= j <= steps.len(),
        state_at(start, steps, file, message, i) !is NotFound,
    ensures
        state_at(start, steps, file, message, j) !is NotFound,
    decreases j,
{
    if i < j {
        lemma_told_stays_told(start, steps, file, message, i, (j - 1) as nat);
    }
}

/// The user is told at most once that a message was not found: after a test has been skipped, it is
/// run or skipped without a word.
pub proof fn law_user_is_told_once(
    start: Map<Seq<u8>, Messages>,
    steps: Seq<Step>,
    i: nat,
    j: nat,
)
    requires
        i < j < steps.len(),
        steps[i as int].same_test(steps[j as int]),
        decision_at(start, steps, i) is Skip,
    ensures
        decision_at(start, steps, j) is Run || decision_at(start, steps, j) == Decision::Skip(None),
{
    let step = steps[i as int];
    lemma_told_stays_told(start, steps, step.file(), step->test_name, i + 1, j);
}

/// As long as the warning about a message is denied, the user is not taken to have been told.
pub proof fn law_denied_warning_stays_due(
    start: Map<Seq<u8>, Messages>,
    steps: Seq<Step>,
    i: nat,
)
    requires
        i < steps.len(),
        steps[i as int] is Exec,
        decision_at(start, steps, i) is Error,
    ensures
        state_at(start, steps, steps[i as int].file(), steps[i as int]->test_name, i + 1)
            is NotFound,
{
}

/// A test is run exactly if a dry run of its file has shown its message.
pub proof fn law_runs_exactly_what_was_shown(steps: Seq<Step>, i: nat)
    requires
        i < steps.len(),
        steps[i as int] is Exec,
    ensures
        ({
            let step = steps[i as int];
            decision_at(Map::empty(), steps, i) is Run <==> exists|k: int|
                0 <= k < i && (#[trigger] steps[k]).shows(step.file(), step->test_name)
        }),
{
    lemma_found_iff_shown(steps, steps[i as int].file(), steps[i as int]->test_name, i);
}

/// A message is found exactly if a dry run has shown it.
proof fn lemma_found_iff_shown(steps: Seq<Step>, file: Seq<u8>, message: Seq<char>, n: nat)
    requires
        n <= steps.len(),
    ensures
        state_at(Map::empty(), steps, file, message, n) is Found <==> exists|k: int|
            0 <= k < n && (#[trigger] steps[k]).shows(file, message),
    decreases n,
{
    if n > 0 {
        let m = (n - 1) as nat;
        lemma_found_iff_shown(steps, file, message, m);
        if steps[m as int].shows(file, message) {
            assert(state_at(Map::empty(), steps, file, message, n) is Found);
        } else {
            assert(state_at(Map::empty(), steps, file, message, n) is Found <==> state_at(
                Map::empty(),
                steps,
                file,
                message,
                m,
            ) is Found);
        }
    }
}

} // verus!
