//! The generic dispatch core: event kinds, transitions, the transition
//! table, and the machine that dispatches events.

use std::collections::HashMap;
use vstd::prelude::*;

verus! {

broadcast use vstd::std_specs::hash::group_hash_axioms;

/// Whether an action may be invoked on (a shared reference to) the wrapper
/// value `w`: the action's precondition admits that argument.
pub open spec fn action_enabled<W, F: Fn(&W)>(f: F, w: W) -> bool {
    call_requires(f, (&w,))
}

/// What is known after an action ran on (a shared reference to) the wrapper
/// value `w`: the action's postcondition holds of that invocation.
pub open spec fn action_ran<W, F: Fn(&W)>(f: F, w: W) -> bool {
    call_ensures(f, (&w,), ())
}

/// The capability every concrete event type implements: it names the unified
/// wrapper sum type it belongs to, carries a kind identifier computed from the
/// type alone (never from an event's data), and converts an instance of itself
/// into the wrapper. The conversion is total and pure: it never fails and has
/// no side effects.
pub trait Event: Sized {
    /// The unified sum type shared by all events usable with one machine.
    type Wrapper;

    /// The kind identifier of this event type. A property of the type alone;
    /// distinct event types of one machine must choose distinct identifiers.
    spec fn kind_spec() -> u64;

    /// What [`Event::wrap`] returns for a given event.
    spec fn wrap_spec(self) -> Self::Wrapper;

    /// The kind identifier, computed without looking at any event value.
    fn kind() -> (k: u64)
        ensures
            k == Self::kind_spec(),
    ;

    /// Converts this event into the unified wrapper value.
    fn wrap(self) -> (w: Self::Wrapper)
        ensures
            w == self.wrap_spec(),
    ;
}

/// A transition bound to one event kind: the target state plus the ordered
/// list of actions to run when an event of that kind arrives. Immutable once
/// inserted into a table.
pub struct Transition<S, F> {
    /// The state the machine reports after dispatching an event of this kind.
    pub target: S,
    /// The actions to run, in registration order, each on the wrapper value.
    pub actions: Vec<F>,
}

/// An associative table from event-kind identifier to [`Transition`], built
/// once at machine-construction time and read-only thereafter. A repeated
/// insertion of one kind replaces the earlier entry: the last insertion wins.
pub struct TransitionTable<S, F> {
    table: HashMap<u64, Transition<S, F>>,
}

impl<S, F> View for TransitionTable<S, F> {
    type V = Map<u64, Transition<S, F>>;

    closed spec fn view(&self) -> Map<u64, Transition<S, F>> {
        self.table@
    }
}

impl<S, F> TransitionTable<S, F> {
    /// An empty table: no event kind is registered.
    pub fn new() -> (t: Self)
        ensures
            t@ == Map::<u64, Transition<S, F>>::empty(),
    {
        TransitionTable { table: HashMap::new() }
    }

    /// Registers `transition` for `kind`, replacing any earlier entry.
    pub fn insert(&mut self, kind: u64, transition: Transition<S, F>)
        ensures
            final(self)@ == old(self)@.insert(kind, transition),
    {
        self.table.insert(kind, transition);
    }

    /// The transition registered for `kind`, if any.
    pub fn lookup(&self, kind: u64) -> (r: Option<&Transition<S, F>>)
        ensures
            match r {
                Some(t) => self@.contains_key(kind) && *t == self@[kind],
                None => !self@.contains_key(kind),
            },
    {
        self.table.get(&kind)
    }
}

/// A dispatch machine: a current state and the transition table that routes
/// incoming events. The machine exclusively owns both; `send` reads them and
/// writes neither.
pub struct Machine<S, F> {
    /// The current state. Set at construction; dispatching never writes it,
    /// and transition selection never reads it.
    pub state: S,
    /// The transition table consulted on every send.
    pub on: TransitionTable<S, F>,
}

impl<S, F> Machine<S, F> {
    /// Whether an event kind has a registered transition.
    pub open spec fn has_transition(&self, kind: u64) -> bool {
        self.on@.contains_key(kind)
    }

    /// The transition this machine selects for an event kind. Selection is a
    /// function of the table and the kind alone: the current state plays no
    /// part in it.
    pub open spec fn transition_for(&self, kind: u64) -> Transition<S, F> {
        self.on@[kind]
    }

    /// Dispatches an event whose kind is registered: looks up the transition
    /// for the event's kind, converts the event into its wrapper value, runs
    /// every action of the transition on that one wrapper value, in
    /// registration order, and returns the transition's target state.
    ///
    /// The caller must show that the kind is registered, so a missing entry
    /// is ruled out before any action can run. The returned state is the
    /// selected transition's target, whatever `self.state` holds.
    pub fn send<Ev>(&self, event: Ev) -> (target: &S) where
        Ev: Event,
        F: Fn(&<Ev as Event>::Wrapper),

        requires
            self.has_transition(Ev::kind_spec()),
            forall|i: int|
                0 <= i < self.transition_for(Ev::kind_spec()).actions@.len() ==> action_enabled(
                    #[trigger] self.transition_for(Ev::kind_spec()).actions@[i],
                    event.wrap_spec(),
                ),
        ensures
            *target == self.transition_for(Ev::kind_spec()).target,
            forall|i: int|
                0 <= i < self.transition_for(Ev::kind_spec()).actions@.len() ==> action_ran(
                    #[trigger] self.transition_for(Ev::kind_spec()).actions@[i],
                    event.wrap_spec(),
                ),
    {
        let ghost ev = event;
        let kind = Ev::kind();
        let transition = match self.on.lookup(kind) {
            Some(t) => t,
            None => unreached(),
        };
        let w = event.wrap();
        let n = transition.actions.len();
        let mut i: usize = 0;
        while i < n
            invariant
                n == transition.actions@.len(),
                *transition == self.transition_for(Ev::kind_spec()),
                w == ev.wrap_spec(),
                i <= n,
                forall|k: int|
                    0 <= k < n ==> action_enabled(#[trigger] transition.actions@[k], ev.wrap_spec()),
                forall|j: int|
                    0 <= j < i ==> action_ran(#[trigger] transition.actions@[j], ev.wrap_spec()),
            decreases n - i,
        {
            (transition.actions[i])(&w);
            i += 1;
        }
        &transition.target
    }

    /// Dispatches an event, surfacing the one possible failure as a value
    /// instead of demanding registration up front: `Ok` with the selected
    /// transition's target state exactly when the event's kind is registered,
    /// and `Err` naming the unregistered kind otherwise. On `Err`, the
    /// failure was detected before any action ran.
    pub fn try_send<Ev>(&self, event: Ev) -> (r: Result<&S, SendError>) where
        Ev: Event,
        F: Fn(&<Ev as Event>::Wrapper),

        requires
            self.has_transition(Ev::kind_spec()) ==> forall|i: int|
                0 <= i < self.transition_for(Ev::kind_spec()).actions@.len() ==> action_enabled(
                    #[trigger] self.transition_for(Ev::kind_spec()).actions@[i],
                    event.wrap_spec(),
                ),
        ensures
            r is Ok <==> self.has_transition(Ev::kind_spec()),
            r is Ok ==> *r->Ok_0 == self.transition_for(Ev::kind_spec()).target,
            r is Ok ==> forall|i: int|
                0 <= i < self.transition_for(Ev::kind_spec()).actions@.len() ==> action_ran(
                    #[trigger] self.transition_for(Ev::kind_spec()).actions@[i],
                    event.wrap_spec(),
                ),
            r is Err ==> r->Err_0 == (SendError::UnregisteredEventKind {
                kind: Ev::kind_spec(),
            }),
    {
        let kind = Ev::kind();
        match self.on.lookup(kind) {
            Some(_) => Ok(self.send(event)),
            None => Err(SendError::UnregisteredEventKind { kind }),
        }
    }
}

/// The one failure the dispatch protocol defines: an event was sent whose
/// kind has no entry in the machine's transition table. It is detected before
/// any action runs, so a failed dispatch runs no action at all.
#[derive(Clone, Copy, Debug, PartialEq, Eq, Structural)]
pub enum SendError {
    /// Holds the kind identifier that had no registered transition.
    UnregisteredEventKind { kind: u64 },
}

/// Transition selection reads the transition table and the event kind, and
/// nothing else: two machines with equal tables agree on which kinds are
/// registered and on the selected transition for every registered kind,
/// whatever their current states.
pub proof fn lemma_selection_ignores_state<S, F>(a: Machine<S, F>, b: Machine<S, F>, kind: u64)
    requires
        a.on@ == b.on@,
    ensures
        a.has_transition(kind) == b.has_transition(kind),
        a.has_transition(kind) ==> a.transition_for(kind) == b.transition_for(kind),
{
}

/// Dispatch is deterministic and its action ordering is stable: any two
/// machines whose tables are equal — in particular one machine before and
/// after any number of dispatches, since `send` writes nothing — run, for a
/// registered kind, the same actions in the same order toward the same
/// target state.
pub proof fn lemma_dispatch_deterministic<S, F>(a: Machine<S, F>, b: Machine<S, F>, kind: u64)
    requires
        a.on@ == b.on@,
        a.has_transition(kind),
    ensures
        b.has_transition(kind),
        a.transition_for(kind).actions@ == b.transition_for(kind).actions@,
        a.transition_for(kind).target == b.transition_for(kind).target,
{
}

} // verus!
