//! The stateful extension of the dispatch core: a machine whose transitions
//! are keyed by the pair of current state and event kind, and whose dispatch
//! commits the target state back into the machine.
//!
//! The `machine` module's dispatch deliberately selects transitions by event
//! kind alone and leaves the stored state untouched. This module is the
//! separate, corrected state-machine design for applications that want the
//! current state to take part in selection and to advance on every dispatch.

use crate::machine::{action_enabled, action_ran, Event, Transition};
use std::collections::HashMap;
use vstd::prelude::*;

verus! {

broadcast use vstd::std_specs::hash::group_hash_axioms;

/// The capability a state type needs before transitions can be keyed by it:
/// a label computed from the state's value, with distinct states of one
/// machine choosing distinct labels.
pub trait StateLabel: Sized {
    /// The label of this state value.
    spec fn label_spec(&self) -> u64;

    /// Computes the label.
    fn label(&self) -> (l: u64)
        ensures
            l == self.label_spec(),
    ;
}

/// One more than the largest event kind: the span a state label is scaled by
/// when a (state, kind) pair is packed into one table key.
const KIND_SPAN: u128 = 0x1_0000_0000_0000_0000;

/// The table key a (state label, event kind) pair packs into. Injective: two
/// pairs share a key only if they are equal.
pub closed spec fn pair_key(label: u64, kind: u64) -> u128 {
    ((label as int) * (KIND_SPAN as int) + (kind as int)) as u128
}

proof fn lemma_pair_key_injective(l1: u64, k1: u64, l2: u64, k2: u64)
    ensures
        pair_key(l1, k1) == pair_key(l2, k2) ==> l1 == l2 && k1 == k2,
{
    if pair_key(l1, k1) == pair_key(l2, k2) {
        assert(l1 == l2 && k1 == k2) by (nonlinear_arith)
            requires
                (l1 as int) * (KIND_SPAN as int) + (k1 as int) == (l2 as int) * (
                KIND_SPAN as int) + (k2 as int),
                k1 < KIND_SPAN,
                k2 < KIND_SPAN,
        ;
    }
}

/// The failure of a stateful dispatch: the pair of the machine's current
/// state and the event's kind has no registered transition. Detected before
/// any action runs, and the machine's state stays where it was.
#[derive(Clone, Copy, Debug, PartialEq, Eq, Structural)]
pub enum StepError {
    /// Holds the state label and the kind identifier of the unhandled pair.
    UnregisteredTransition { state: u64, kind: u64 },
}

/// A state machine proper: a current state and a transition table keyed by
/// (current-state label, event kind). Dispatching an event selects the
/// transition for that pair, runs its actions, and commits its target as the
/// new current state.
pub struct StatefulMachine<S, F> {
    state: S,
    table: HashMap<u128, Transition<S, F>>,
}

impl<S, F> StatefulMachine<S, F> {
    /// The registered transitions, as a map keyed by packed (state label,
    /// event kind) pairs.
    pub closed spec fn transitions(&self) -> Map<u128, Transition<S, F>> {
        self.table@
    }

    /// The current state; every successful dispatch writes it.
    pub closed spec fn state_spec(&self) -> S {
        self.state
    }

    /// Reads the current state.
    pub fn current_state(&self) -> (s: S) where S: Copy
        ensures
            s == self.state_spec(),
    {
        self.state
    }

    /// Whether a transition is registered for a state label and event kind.
    pub open spec fn has_transition(&self, label: u64, kind: u64) -> bool {
        self.transitions().contains_key(pair_key(label, kind))
    }

    /// The transition registered for a state label and event kind.
    pub open spec fn transition_for(&self, label: u64, kind: u64) -> Transition<S, F> {
        self.transitions()[pair_key(label, kind)]
    }

    /// A machine at its initial state, with no transition registered.
    pub fn new(initial: S) -> (m: Self)
        ensures
            m.state_spec() == initial,
            forall|l: u64, k: u64| !m.has_transition(l, k),
    {
        StatefulMachine { state: initial, table: HashMap::new() }
    }

    /// Registers `transition` for events of kind `kind` arriving while the
    /// machine is in a state labelled `label`, replacing any earlier entry
    /// for that pair and touching no other pair and not the current state.
    pub fn insert(&mut self, label: u64, kind: u64, transition: Transition<S, F>)
        ensures
            final(self).state_spec() == old(self).state_spec(),
            final(self).has_transition(label, kind),
            final(self).transition_for(label, kind) == transition,
            forall|l: u64, k: u64|
                !(l == label && k == kind) ==> #[trigger] final(self).has_transition(l, k)
                    == old(self).has_transition(l, k),
            forall|l: u64, k: u64|
                !(l == label && k == kind) && old(self).has_transition(l, k)
                    ==> #[trigger] final(self).transition_for(l, k) == old(self).transition_for(
                    l,
                    k,
                ),
    {
        let key: u128 = (label as u128) * KIND_SPAN + (kind as u128);
        self.table.insert(key, transition);
        proof {
            assert forall|l: u64, k: u64| !(l == label && k == kind) implies pair_key(l, k)
                != pair_key(label, kind) by {
                lemma_pair_key_injective(l, k, label, kind);
            }
        }
    }

    /// Dispatches an event through the stateful protocol: selects the
    /// transition for the pair of the current state's label and the event's
    /// kind, runs every action of that transition on the event's wrapper
    /// value in registration order, commits the transition's target as the
    /// new current state, and returns it. The table is left untouched.
    pub fn step<Ev>(&mut self, event: Ev) -> (target: S) where
        S: Copy + StateLabel,
        Ev: Event,
        F: Fn(&<Ev as Event>::Wrapper),

        requires
            old(self).has_transition(old(self).state_spec().label_spec(), Ev::kind_spec()),
            forall|i: int|
                0 <= i < old(self).transition_for(
                    old(self).state_spec().label_spec(),
                    Ev::kind_spec(),
                ).actions@.len() ==> action_enabled(
                    #[trigger] old(self).transition_for(
                        old(self).state_spec().label_spec(),
                        Ev::kind_spec(),
                    ).actions@[i],
                    event.wrap_spec(),
                ),
        ensures
            target == old(self).transition_for(old(self).state_spec().label_spec(), Ev::kind_spec()).target,
            final(self).state_spec() == target,
            forall|l: u64, k: u64| #[trigger] final(self).has_transition(l, k)
                == old(self).has_transition(l, k),
            forall|l: u64, k: u64|
                old(self).has_transition(l, k) ==> #[trigger] final(self).transition_for(l, k)
                    == old(self).transition_for(l, k),
            forall|i: int|
                0 <= i < old(self).transition_for(
                    old(self).state_spec().label_spec(),
                    Ev::kind_spec(),
                ).actions@.len() ==> action_ran(
                    #[trigger] old(self).transition_for(
                        old(self).state_spec().label_spec(),
                        Ev::kind_spec(),
                    ).actions@[i],
                    event.wrap_spec(),
                ),
    {
        let ghost ev = event;
        let label = self.state.label();
        let kind = Ev::kind();
        let key: u128 = (label as u128) * KIND_SPAN + (kind as u128);
        let transition = match self.table.get(&key) {
            Some(t) => t,
            None => unreached(),
        };
        let w = event.wrap();
        let n = transition.actions.len();
        let mut i: usize = 0;
        while i < n
            invariant
                n == transition.actions@.len(),
                *transition == old(self).transition_for(old(self).state_spec().label_spec(), Ev::kind_spec()),
                w == ev.wrap_spec(),
                i <= n,
                forall|k: int|
                    0 <= k < n ==> action_enabled(#[trigger] transition.actions@[k], ev.wrap_spec()),
                forall|j: int|
                    0 <= j < i ==> action_ran(#[trigger] transition.actions@[j], ev.wrap_spec()),
            decreases n - i,
        {
            (transition.actions[i])(&w);
            i += 1;
        }
        let target = transition.target;
        self.state = target;
        target
    }

    /// Dispatches an event through the stateful protocol, surfacing the one
    /// possible failure as a value: `Ok` with the new, committed state
    /// exactly when the pair of current state and event kind is registered;
    /// `Err` naming the unhandled pair otherwise, with the machine unchanged
    /// and no action run.
    pub fn try_step<Ev>(&mut self, event: Ev) -> (r: Result<S, StepError>) where
        S: Copy + StateLabel,
        Ev: Event,
        F: Fn(&<Ev as Event>::Wrapper),

        requires
            old(self).has_transition(old(self).state_spec().label_spec(), Ev::kind_spec())
                ==> forall|i: int|
                0 <= i < old(self).transition_for(
                    old(self).state_spec().label_spec(),
                    Ev::kind_spec(),
                ).actions@.len() ==> action_enabled(
                    #[trigger] old(self).transition_for(
                        old(self).state_spec().label_spec(),
                        Ev::kind_spec(),
                    ).actions@[i],
                    event.wrap_spec(),
                ),
        ensures
            r is Ok <==> old(self).has_transition(old(self).state_spec().label_spec(), Ev::kind_spec()),
            forall|l: u64, k: u64| #[trigger] final(self).has_transition(l, k)
                == old(self).has_transition(l, k),
            forall|l: u64, k: u64|
                old(self).has_transition(l, k) ==> #[trigger] final(self).transition_for(l, k)
                    == old(self).transition_for(l, k),
            r is Ok ==> r->Ok_0 == old(self).transition_for(
                old(self).state_spec().label_spec(),
                Ev::kind_spec(),
            ).target && final(self).state_spec() == r->Ok_0,
            r is Err ==> final(self).state_spec() == old(self).state_spec() && r->Err_0 == (
            StepError::UnregisteredTransition {
                state: old(self).state_spec().label_spec(),
                kind: Ev::kind_spec(),
            }),
    {
        let label = self.state.label();
        let kind = Ev::kind();
        let key: u128 = (label as u128) * KIND_SPAN + (kind as u128);
        match self.table.get(&key) {
            Some(_) => Ok(self.step(event)),
            None => Err(StepError::UnregisteredTransition { state: label, kind }),
        }
    }
}

} // verus!
