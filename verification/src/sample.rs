//! A small concrete event family that exercises the dispatch core: two event
//! types sharing one wrapper, two states, and the two reaction functions the
//! registered actions are built from.

use crate::machine::Event;
use vstd::prelude::*;

verus! {

/// An event that carries data: a number and a piece of text.
pub struct DataEvent {
    pub number: u8,
    pub string: String,
}

/// An event that carries nothing; its arrival is its whole content.
pub struct DatalessEvent;

/// The unified wrapper sum type of this family: exactly one variant per
/// concrete event type, so a single homogeneous value can be handed to every
/// action.
pub enum EventWrapper {
    DataEvent(DataEvent),
    DatalessEvent(DatalessEvent),
}

/// The opaque state labels of the sample machine; pure data with no behavior.
#[derive(Clone, Copy, Debug, PartialEq, Eq, Structural)]
pub enum State {
    StateA,
    StateB,
}

impl From<DataEvent> for EventWrapper {
    fn from(event: DataEvent) -> (w: EventWrapper) {
        EventWrapper::DataEvent(event)
    }
}

impl vstd::std_specs::convert::FromSpecImpl<DataEvent> for EventWrapper {
    open spec fn obeys_from_spec() -> bool {
        true
    }

    open spec fn from_spec(event: DataEvent) -> EventWrapper {
        EventWrapper::DataEvent(event)
    }
}

impl From<DatalessEvent> for EventWrapper {
    fn from(event: DatalessEvent) -> (w: EventWrapper) {
        EventWrapper::DatalessEvent(event)
    }
}

impl vstd::std_specs::convert::FromSpecImpl<DatalessEvent> for EventWrapper {
    open spec fn obeys_from_spec() -> bool {
        true
    }

    open spec fn from_spec(event: DatalessEvent) -> EventWrapper {
        EventWrapper::DatalessEvent(event)
    }
}

impl Event for DataEvent {
    type Wrapper = EventWrapper;

    open spec fn kind_spec() -> u64 {
        1
    }

    open spec fn wrap_spec(self) -> EventWrapper {
        EventWrapper::DataEvent(self)
    }

    fn kind() -> (k: u64) {
        1
    }

    fn wrap(self) -> (w: EventWrapper) {
        EventWrapper::from(self)
    }
}

impl Event for DatalessEvent {
    type Wrapper = EventWrapper;

    open spec fn kind_spec() -> u64 {
        2
    }

    open spec fn wrap_spec(self) -> EventWrapper {
        EventWrapper::DatalessEvent(self)
    }

    fn kind() -> (k: u64) {
        2
    }

    fn wrap(self) -> (w: EventWrapper) {
        EventWrapper::from(self)
    }
}

impl crate::stateful::StateLabel for State {
    open spec fn label_spec(&self) -> u64 {
        match *self {
            State::StateA => 1,
            State::StateB => 2,
        }
    }

    fn label(&self) -> (l: u64) {
        match *self {
            State::StateA => 1,
            State::StateB => 2,
        }
    }
}

/// Wrapping an event of this family yields the wrapper variant of that
/// event's kind, holding the event itself: the value every action of a
/// dispatch receives matches the kind that was sent.
pub proof fn lemma_wrapper_matches_kind(d: DataEvent, n: DatalessEvent)
    ensures
        d.wrap_spec() == EventWrapper::DataEvent(d),
        n.wrap_spec() == EventWrapper::DatalessEvent(n),
{
}

/// The reaction that is interested in [`DataEvent`]s: on a matching wrapper
/// variant it observes the event's payload, and on any other variant it
/// reports that nothing applied — never an error.
pub fn process_data_event(event: &EventWrapper) -> (r: Option<(u8, String)>)
    ensures
        match *event {
            EventWrapper::DataEvent(d) => r == Some((d.number, d.string)),
            EventWrapper::DatalessEvent(_) => r is None,
        },
{
    match event {
        EventWrapper::DataEvent(d) => Some((d.number, d.string.clone())),
        EventWrapper::DatalessEvent(_) => None,
    }
}

/// The reaction that is interested in [`DatalessEvent`]s: it reports whether
/// the wrapper variant matched; a non-matching variant is a no-op, never an
/// error.
pub fn process_dataless_event(event: &EventWrapper) -> (r: bool)
    ensures
        r == (event is DatalessEvent),
{
    match event {
        EventWrapper::DataEvent(_) => false,
        EventWrapper::DatalessEvent(_) => true,
    }
}

} // verus!
