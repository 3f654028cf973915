//! What holds of any sequence of warnings.

use vstd::prelude::*;

use crate::emitted;
use crate::emitted::{Emitted, Flags};
use crate::warn;
use crate::warn::{LightContext, Outcome};
use crate::warning::Warning;

verus! {

/// A call of [`warn::warn`] or [`warn::source_warn`].
pub struct WarnCall {
    pub context: LightContext,
    pub warning: Warning,
    pub source: Option<Seq<char>>,
    pub msg: Seq<char>,
    pub flags: Flags,
}

/// What has been printed about each kind of warning after the first `n` of `calls`.
pub open spec fn states_after(start: Map<Warning, Emitted>, calls: Seq<WarnCall>, n: nat) -> Map<
    Warning,
    Emitted,
>
    decreases n,
{
    if n == 0 {
        start
    } else {
        let before = states_after(start, calls, (n - 1) as nat);
        let call = calls[n - 1];
        warn::states_after(call.context.opts, before, call.warning, call.flags)
    }
}

/// What has been printed about `warning` after the first `n` of `calls`.
pub open spec fn emitted_at(
    start: Map<Warning, Emitted>,
    calls: Seq<WarnCall>,
    warning: Warning,
    n: nat,
) -> Emitted {
    emitted::emitted(states_after(start, calls, n), warning)
}

/// What comes of the call at index `i`.
pub open spec fn outcome_at(start: Map<Warning, Emitted>, calls: Seq<WarnCall>, i: nat) -> Outcome {
    let call = calls[i as int];
    warn::warned(
        call.context,
        emitted_at(start, calls, call.warning, i),
        call.warning,
        call.source,
        call.msg,
        call.flags,
    )
}

/// What has been printed stays printed.
pub proof fn law_emitted_grows(
    start: Map<Warning, Emitted>,
    calls: Seq<WarnCall>,
    warning: Warning,
    i: nat,
    j: nat,
)
    requires
        i <= j <= calls.len(),
    ensures
        emitted_at(start, calls, warning, i).within(emitted_at(start, calls, warning, j)),
    decreases j,
{
    if i < j {
        law_emitted_grows(start, calls, warning, i, (j - 1) as nat);
    }
}

/// Warnings of one kind do not affect what is printed about another.
pub proof fn law_kinds_are_independent(
    start: Map<Warning, Emitted>,
    calls: Seq<WarnCall>,
    warning: Warning,
    i: nat,
    j: nat,
)
    requires
        i <= j <= calls.len(),
        forall|k: int| i <= k < j ==> (#[trigger] calls[k]).warning != warning,
    ensures
        emitted_at(start, calls, warning, i) == emitted_at(start, calls, warning, j),
    decreases j,
{
    if i < j {
        law_kinds_are_independent(start, calls, warning, i, (j - 1) as nat);
    }
}

/// Those of the first `n` of `calls` that are about `warning`.
pub open spec fn of_kind(calls: Seq<WarnCall>, warning: Warning, n: nat) -> Seq<WarnCall>
    decreases n,
{
    if n == 0 {
        Seq::empty()
    } else {
        let before = of_kind(calls, warning, (n - 1) as nat);
        if calls[n - 1].warning == warning {
            before.push(calls[n - 1])
        } else {
            before
        }
    }
}

/// Of the calls so far, only those of a kind decide what has been printed about it.
proof fn lemma_only_kind_counts(
    start: Map<Warning, Emitted>,
    calls: Seq<WarnCall>,
    warning: Warning,
    n: nat,
)
    requires
        n <= calls.len(),
    ensures
        ({
            let same = of_kind(calls, warning, n);
            emitted_at(start, calls, warning, n) == emitted_at(start, same, warning, same.len())
        }),
    decreases n,
{
    if n > 0 {
        let m = (n - 1) as nat;
        lemma_only_kind_counts(start, calls, warning, m);
        let before = of_kind(calls, warning, m);
        if calls[n - 1].warning == warning {
            let same = of_kind(calls, warning, n);
            lemma_same_calls(start, before, same, before.len());
            assert(same.last() == calls[n - 1]);
        }
    }
}

/// What has been printed after some calls does not depend on the calls behind them.
proof fn lemma_same_calls(
    start: Map<Warning, Emitted>,
    left: Seq<WarnCall>,
    right: Seq<WarnCall>,
    n: nat,
)
    requires
        n <= left.len(),
        n <= right.len(),
        forall|i: int| 0 <= i < n ==> left[i] == right[i],
    ensures
        states_after(start, left, n) == states_after(start, right, n),
    decreases n,
{
    if n > 0 {
        lemma_same_calls(start, left, right, (n - 1) as nat);
    }
}

/// What has been printed after some calls about a kind depends on what was printed about that kind
/// at the start, and on nothing else.
proof fn lemma_same_start(
    left: Map<Warning, Emitted>,
    right: Map<Warning, Emitted>,
    calls: Seq<WarnCall>,
    warning: Warning,
    n: nat,
)
    requires
        n <= calls.len(),
        emitted::emitted(left, warning) == emitted::emitted(right, warning),
    ensures
        emitted_at(left, calls, warning, n) == emitted_at(right, calls, warning, n),
    decreases n,
{
    if n > 0 {
        lemma_same_start(left, right, calls, warning, (n - 1) as nat);
    }
}

/// What comes of a call after two histories is the same if they agree on the calls of its kind,
/// whatever calls of other kinds are among them. So is what has been printed about its kind.
pub proof fn law_only_the_same_kind_matters(
    left_start: Map<Warning, Emitted>,
    left: Seq<WarnCall>,
    right_start: Map<Warning, Emitted>,
    right: Seq<WarnCall>,
    call: WarnCall,
)
    requires
        emitted::emitted(left_start, call.warning) == emitted::emitted(right_start, call.warning),
        of_kind(left, call.warning, left.len()) == of_kind(right, call.warning, right.len()),
    ensures
        outcome_at(left_start, left.push(call), left.len()) == outcome_at(
            right_start,
            right.push(call),
            right.len(),
        ),
        emitted_at(left_start, left.push(call), call.warning, left.len() + 1) == emitted_at(
            right_start,
            right.push(call),
            call.warning,
            right.len() + 1,
        ),
{
    let warning = call.warning;
    lemma_only_kind_counts(left_start, left, warning, left.len());
    lemma_only_kind_counts(right_start, right, warning, right.len());
    let same = of_kind(left, warning, left.len());
    lemma_same_start(left_start, right_start, same, warning, same.len());
    lemma_same_calls(left_start, left, left.push(call), left.len());
    lemma_same_calls(right_start, right, right.push(call), right.len());
}

/// At most the first warning of a kind carries the remark that there may be a bug.
pub proof fn law_bug_remark_comes_once(
    start: Map<Warning, Emitted>,
    calls: Seq<WarnCall>,
    i: nat,
    j: nat,
)
    requires
        i < j < calls.len(),
        calls[i as int].warning == calls[j as int].warning,
    ensures
        ({
            let call = calls[j as int];
            warn::full_message(
                call.warning,
                call.msg,
                emitted_at(start, calls, call.warning, j),
            ) == call.msg
        }),
{
    law_emitted_grows(start, calls, calls[j as int].warning, i + 1, j);
}

/// If nothing has been printed at the start, the first warning of a kind carries the remark that
/// there may be a bug, if its kind may be due to one. This holds of an error and of a printed line.
pub proof fn law_first_of_a_kind_carries_bug_remark(
    start: Map<Warning, Emitted>,
    calls: Seq<WarnCall>,
    i: nat,
)
    requires
        i < calls.len(),
        emitted::emitted(start, calls[i as int].warning) == Emitted::nothing(),
        forall|k: int| 0 <= k < i ==> (#[trigger] calls[k]).warning != calls[i as int].warning,
        warn::may_be_bug_spec(calls[i as int].warning),
    ensures
        ({
            let call = calls[i as int];
            let msg = call.msg + warn::BUG_MSG@;
            match outcome_at(start, calls, i) {
                Outcome::Denied(message) => message == msg,
                Outcome::Silent => true,
                Outcome::Printed(line) => line == warn::source_prefix(call.source)
                    + warn::warning_label(call.context.is_terminal) + ": "@ + msg
                    + warn::allow_hint(call.warning, Emitted::nothing()),
            }
        }),
{
    law_kinds_are_independent(start, calls, calls[i as int].warning, 0, i);
}

/// As long as no warning of a kind has been printed, how to silence it has not been told.
proof fn lemma_hint_is_due(
    start: Map<Warning, Emitted>,
    calls: Seq<WarnCall>,
    warning: Warning,
    n: nat,
)
    requires
        n <= calls.len(),
        emitted::emitted(start, warning) == Emitted::nothing(),
        forall|k: nat|
            k < n && calls[k as int].warning == warning ==> #[trigger] outcome_at(start, calls, k)
                !is Printed,
    ensures
        !emitted_at(start, calls, warning, n).allow_msg,
    decreases n,
{
    if n > 0 {
        lemma_hint_is_due(start, calls, warning, (n - 1) as nat);
        assert(calls[n - 1].warning == warning ==> outcome_at(start, calls, (n - 1) as nat)
            !is Printed);
    }
}

/// If nothing has been printed at the start, the first line that is printed about a kind of warning
/// ends with how to silence it.
pub proof fn law_first_printed_carries_allow_hint(
    start: Map<Warning, Emitted>,
    calls: Seq<WarnCall>,
    i: nat,
)
    requires
        i < calls.len(),
        emitted::emitted(start, calls[i as int].warning) == Emitted::nothing(),
        forall|k: nat|
            k < i && calls[k as int].warning == calls[i as int].warning
                ==> #[trigger] outcome_at(start, calls, k) !is Printed,
        outcome_at(start, calls, i) is Printed,
    ensures
        ({
            let call = calls[i as int];
            outcome_at(start, calls, i)->Printed_0 == warn::source_prefix(call.source)
                + warn::warning_label(call.context.is_terminal) + ": "@ + warn::full_message(
                call.warning,
                call.msg,
                emitted_at(start, calls, call.warning, i),
            ) + "\nSilence this warning with: --allow "@ + call.warning.option_name()
        }),
{
    let call = calls[i as int];
    lemma_hint_is_due(start, calls, call.warning, i);
    let line = outcome_at(start, calls, i)->Printed_0;
    assert(line =~= warn::source_prefix(call.source) + warn::warning_label(
        call.context.is_terminal,
    ) + ": "@ + warn::full_message(
        call.warning,
        call.msg,
        emitted_at(start, calls, call.warning, i),
    ) + "\nSilence this warning with: --allow "@ + call.warning.option_name());
}

/// How to silence a kind of warning is told at most with the first one that is printed.
pub proof fn law_allow_hint_comes_once(
    start: Map<Warning, Emitted>,
    calls: Seq<WarnCall>,
    i: nat,
    j: nat,
)
    requires
        i < j < calls.len(),
        calls[i as int].warning == calls[j as int].warning,
        outcome_at(start, calls, i) is Printed,
    ensures
        ({
            let call = calls[j as int];
            warn::allow_hint(call.warning, emitted_at(start, calls, call.warning, j))
                == Seq::<char>::empty()
        }),
{
    law_emitted_grows(start, calls, calls[j as int].warning, i + 1, j);
}

/// A warning that is to be printed once is not printed if one of its kind has been.
pub proof fn law_once_means_once(
    start: Map<Warning, Emitted>,
    calls: Seq<WarnCall>,
    i: nat,
    j: nat,
)
    requires
        i < j < calls.len(),
        calls[i as int].warning == calls[j as int].warning,
        outcome_at(start, calls, i) is Printed,
        calls[j as int].flags.is_once(),
    ensures
        outcome_at(start, calls, j) !is Printed,
{
    law_emitted_grows(start, calls, calls[j as int].warning, i + 1, j);
}

/// A denied warning is an error, even if it is allowed as well or nothing is to be printed. Every
/// other warning is no error.
pub proof fn law_deny_takes_precedence(start: Map<Warning, Emitted>, calls: Seq<WarnCall>, i: nat)
    requires
        i < calls.len(),
    ensures
        outcome_at(start, calls, i) is Denied <==> warn::is_denied(
            calls[i as int].context.opts,
            calls[i as int].warning,
        ),
{
}

/// Nothing is printed if nothing is to be printed, nor of a warning that is allowed.
pub proof fn law_allowed_is_not_printed(start: Map<Warning, Emitted>, calls: Seq<WarnCall>, i: nat)
    requires
        i < calls.len(),
        ({
            let opts = calls[i as int].context.opts;
            ||| opts.quiet
            ||| opts.allow@.contains(Warning::All)
            ||| opts.allow@.contains(calls[i as int].warning)
        }),
    ensures
        outcome_at(start, calls, i) !is Printed,
{
}

} // verus!
