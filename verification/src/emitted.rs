//! What has been said about each kind of warning so far.

use vstd::prelude::*;

use std::collections::BTreeMap;

use crate::warning::Warning;

verus! {

/// Flags that alter how a warning is reported.
#[derive(Clone, Copy)]
pub struct Flags {
    bits: u8,
}

/// The bit of [`Flags::once`].
const ONCE: u8 = 1;

impl Flags {
    /// The bits that are set.
    pub closed spec fn bits_spec(self) -> u8 {
        self.bits
    }

    /// The warning is to be printed only if none of its kind has been printed.
    pub open spec fn is_once(self) -> bool {
        self.bits_spec() & 1 == 1
    }

    /// No flag.
    pub closed spec fn empty_spec() -> Flags {
        Flags { bits: 0 }
    }

    /// No flag.
    pub fn empty() -> (flags: Flags)
        ensures
            flags == Flags::empty_spec(),
            flags.bits_spec() == 0,
            !flags.is_once(),
    {
        proof {
            lemma_empty_flags();
        }
        Flags { bits: 0 }
    }

    /// The flag that restricts a kind of warning to one printed message.
    pub fn once() -> (flags: Flags)
        ensures
            flags.bits_spec() == 1,
            flags.is_once(),
    {
        assert(1u8 & 1 == 1) by (bit_vector);
        Flags { bits: ONCE }
    }

    /// Whether all flags of `other` are set.
    pub fn contains(&self, other: Flags) -> (contained: bool)
        ensures
            contained == (self.bits_spec() & other.bits_spec() == other.bits_spec()),
    {
        self.bits & other.bits == other.bits
    }
}

/// No flag is set in no flags.
pub proof fn lemma_empty_flags()
    ensures
        Flags::empty_spec().bits_spec() == 0,
        !Flags::empty_spec().is_once(),
{
    assert(0u8 & 1 == 0) by (bit_vector);
}

/// What has been printed about a kind of warning.
pub struct Emitted {
    /// How to silence it.
    pub allow_msg: bool,
    /// That it may indicate a bug.
    pub bug_msg: bool,
    /// The warning itself.
    pub warning: bool,
}

impl Emitted {
    /// Nothing has been printed.
    pub open spec fn nothing() -> Emitted {
        Emitted { allow_msg: false, bug_msg: false, warning: false }
    }

    /// Everything in `self` is in `other`.
    pub open spec fn within(self, other: Emitted) -> bool {
        &&& self.allow_msg ==> other.allow_msg
        &&& self.bug_msg ==> other.bug_msg
        &&& self.warning ==> other.warning
    }
}

pub(crate) const ALLOW_MSG_EMITTED: u8 = 1;

pub(crate) const BUG_MSG_EMITTED: u8 = 2;

pub(crate) const WARNING_EMITTED: u8 = 4;

/// The state of a kind of warning, one bit for each thing that may have been printed about it.
#[derive(Clone, Copy)]
pub(crate) struct State {
    bits: u8,
}

impl View for State {
    type V = Emitted;

    closed spec fn view(&self) -> Emitted {
        Emitted {
            allow_msg: self.bits & 1 == 1,
            bug_msg: self.bits & 2 == 2,
            warning: self.bits & 4 == 4,
        }
    }
}

impl State {
    pub(crate) fn empty() -> (state: State)
        ensures
            state@ == Emitted::nothing(),
    {
        assert(0u8 & 1 == 0 && 0u8 & 2 == 0 && 0u8 & 4 == 0) by (bit_vector);
        State { bits: 0 }
    }

    pub(crate) fn contains(&self, flag: u8) -> (contained: bool)
        ensures
            flag == ALLOW_MSG_EMITTED ==> contained == self@.allow_msg,
            flag == BUG_MSG_EMITTED ==> contained == self@.bug_msg,
            flag == WARNING_EMITTED ==> contained == self@.warning,
    {
        self.bits & flag == flag
    }

    pub(crate) fn insert(&mut self, flag: u8)
        ensures
            flag == ALLOW_MSG_EMITTED ==> final(self)@ == (Emitted {
                allow_msg: true,
                ..old(self)@
            }),
            flag == BUG_MSG_EMITTED ==> final(self)@ == (Emitted { bug_msg: true, ..old(self)@ }),
            flag == WARNING_EMITTED ==> final(self)@ == (Emitted { warning: true, ..old(self)@ }),
    {
        proof {
            let b = self.bits;
            assert((b | 1) & 1 == 1 && (b | 1) & 2 == b & 2 && (b | 1) & 4 == b & 4)
                by (bit_vector);
            assert((b | 2) & 2 == 2 && (b | 2) & 1 == b & 1 && (b | 2) & 4 == b & 4)
                by (bit_vector);
            assert((b | 4) & 4 == 4 && (b | 4) & 1 == b & 1 && (b | 4) & 2 == b & 2)
                by (bit_vector);
        }
        self.bits = self.bits | flag;
    }
}

/// What has been printed about each kind of warning.
pub struct WarningStateMap {
    states: BTreeMap<u8, State>,
}

impl View for WarningStateMap {
    type V = Map<Warning, Emitted>;

    closed spec fn view(&self) -> Map<Warning, Emitted> {
        Map::new(
            |warning: Warning| self.states@.contains_key(warning.index_spec()),
            |warning: Warning| self.states@[warning.index_spec()]@,
        )
    }
}

/// What `states` says has been printed about `warning`: nothing, if it has no entry.
pub open spec fn emitted(states: Map<Warning, Emitted>, warning: Warning) -> Emitted {
    if states.contains_key(warning) {
        states[warning]
    } else {
        Emitted::nothing()
    }
}

impl WarningStateMap {
    /// Nothing has been printed about any kind of warning.
    pub fn new() -> (states: WarningStateMap)
        ensures
            states@ == Map::<Warning, Emitted>::empty(),
    {
        let states = WarningStateMap { states: BTreeMap::new() };
        assert(states@ =~= Map::<Warning, Emitted>::empty());
        states
    }

    /// The state of `warning`, empty if it has none yet.
    pub(crate) fn state(&self, warning: Warning) -> (state: State)
        ensures
            state@ == emitted(self@, warning),
    {
        match self.states.get(&warning.index()) {
            Some(state) => *state,
            None => State::empty(),
        }
    }

    /// Makes `state` the state of `warning`.
    pub(crate) fn set(&mut self, warning: Warning, state: State)
        ensures
            final(self)@ == old(self)@.insert(warning, state@),
    {
        self.states.insert(warning.index(), state);
        proof {
            assert(forall|other: Warning|
                #[trigger] other.index_spec() == warning.index_spec() ==> other == warning);
            assert(self@ =~= old(self)@.insert(warning, state@));
        }
    }
}

} // verus!
