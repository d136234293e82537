use std::cell::RefCell;
use std::rc::Rc;

use event_machine::machine::{Event, Machine, SendError, Transition, TransitionTable};
use event_machine::sample::{
    process_data_event, process_dataless_event, DataEvent, DatalessEvent, EventWrapper, State,
};
use event_machine::stateful::{StateLabel, StatefulMachine, StepError};

type Log = Rc<RefCell<Vec<String>>>;

/// An action that reacts as the sample reaction functions do and records what
/// it observed, so a test can check which actions ran, in what order, and
/// what each one saw.
fn observer(tag: &'static str, log: Log) -> impl Fn(&EventWrapper) {
    move |event: &EventWrapper| {
        let entry = if tag == "data" {
            match process_data_event(event) {
                Some((number, string)) => format!("data saw {number}, {string}"),
                None => "data no-op".to_string(),
            }
        } else if process_dataless_event(event) {
            "dataless saw the event".to_string()
        } else {
            "dataless no-op".to_string()
        };
        log.borrow_mut().push(entry);
    }
}

#[test]
fn data_event_scenario() {
    let log: Log = Rc::new(RefCell::new(Vec::new()));
    let mut table = TransitionTable::new();
    table.insert(
        DataEvent::kind(),
        Transition {
            target: State::StateA,
            actions: vec![observer("data", log.clone()), observer("dataless", log.clone())],
        },
    );
    let machine = Machine { state: State::StateA, on: table };

    let state = machine.send(DataEvent { number: 1, string: "Testing!".to_string() });

    assert_eq!(*state, State::StateA);
    assert_eq!(
        *log.borrow(),
        vec!["data saw 1, Testing!".to_string(), "dataless no-op".to_string()]
    );
}

#[test]
fn dataless_event_scenario() {
    let log: Log = Rc::new(RefCell::new(Vec::new()));
    let mut table = TransitionTable::new();
    table.insert(
        DatalessEvent::kind(),
        Transition {
            target: State::StateB,
            actions: vec![observer("data", log.clone()), observer("dataless", log.clone())],
        },
    );
    let machine = Machine { state: State::StateA, on: table };

    let state = machine.send(DatalessEvent);

    assert_eq!(*state, State::StateB);
    assert_eq!(
        *log.borrow(),
        vec!["data no-op".to_string(), "dataless saw the event".to_string()]
    );
}

#[test]
fn selection_is_a_function_of_event_kind_alone() {
    let log: Log = Rc::new(RefCell::new(Vec::new()));
    let mut table = TransitionTable::new();
    table.insert(
        DataEvent::kind(),
        Transition {
            target: State::StateA,
            actions: vec![observer("data", log.clone()), observer("dataless", log.clone())],
        },
    );
    table.insert(
        DatalessEvent::kind(),
        Transition {
            target: State::StateB,
            actions: vec![observer("data", log.clone()), observer("dataless", log.clone())],
        },
    );
    let machine = Machine { state: State::StateA, on: table };

    let first = *machine.send(DataEvent { number: 1, string: "Testing!".to_string() });
    let second = *machine.send(DatalessEvent);
    let third = *machine.send(DataEvent { number: 200, string: "A secret message".to_string() });

    assert_eq!(first, State::StateA);
    assert_eq!(second, State::StateB);
    assert_eq!(third, State::StateA);
    assert_eq!(
        *log.borrow(),
        vec![
            "data saw 1, Testing!".to_string(),
            "dataless no-op".to_string(),
            "data no-op".to_string(),
            "dataless saw the event".to_string(),
            "data saw 200, A secret message".to_string(),
            "dataless no-op".to_string(),
        ]
    );
}

#[test]
fn actions_run_exactly_once_in_registration_order_on_every_send() {
    let log: Log = Rc::new(RefCell::new(Vec::new()));
    let tags = ["first", "second", "third"];
    let mut table = TransitionTable::new();
    table.insert(
        DataEvent::kind(),
        Transition {
            target: State::StateA,
            actions: tags.iter().map(|t| recorder(t, log.clone())).collect(),
        },
    );
    let machine = Machine { state: State::StateB, on: table };

    machine.send(DataEvent { number: 7, string: "one".to_string() });
    machine.send(DataEvent { number: 7, string: "one".to_string() });

    assert_eq!(*log.borrow(), vec!["first", "second", "third", "first", "second", "third"]);
}

/// An action that records only that it ran.
fn recorder(tag: &'static str, log: Log) -> impl Fn(&EventWrapper) {
    move |_event: &EventWrapper| log.borrow_mut().push(tag.to_string())
}

#[test]
fn current_state_does_not_affect_the_returned_state() {
    for start in [State::StateA, State::StateB] {
        let log: Log = Rc::new(RefCell::new(Vec::new()));
        let mut table = TransitionTable::new();
        table.insert(
            DataEvent::kind(),
            Transition { target: State::StateA, actions: vec![observer("data", log.clone())] },
        );
        let machine = Machine { state: start, on: table };
        let state = machine.send(DataEvent { number: 3, string: "hi".to_string() });
        assert_eq!(*state, State::StateA);
    }
}

#[test]
fn unregistered_kind_is_reported_and_no_action_runs() {
    let log: Log = Rc::new(RefCell::new(Vec::new()));
    let mut table = TransitionTable::new();
    table.insert(
        DataEvent::kind(),
        Transition { target: State::StateA, actions: vec![observer("data", log.clone())] },
    );
    let machine = Machine { state: State::StateA, on: table };

    let result = machine.try_send(DatalessEvent);

    assert_eq!(result, Err(SendError::UnregisteredEventKind { kind: DatalessEvent::kind() }));
    assert!(log.borrow().is_empty());
}

#[test]
fn try_send_dispatches_registered_kinds() {
    let log: Log = Rc::new(RefCell::new(Vec::new()));
    let mut table = TransitionTable::new();
    table.insert(
        DatalessEvent::kind(),
        Transition {
            target: State::StateB,
            actions: vec![observer("data", log.clone()), observer("dataless", log.clone())],
        },
    );
    let machine = Machine { state: State::StateA, on: table };

    let result = machine.try_send(DatalessEvent);

    assert_eq!(result, Ok(&State::StateB));
    assert_eq!(
        *log.borrow(),
        vec!["data no-op".to_string(), "dataless saw the event".to_string()]
    );
}

#[test]
fn last_insertion_wins_for_a_repeated_kind() {
    let log: Log = Rc::new(RefCell::new(Vec::new()));
    let mut table = TransitionTable::new();
    table.insert(
        DataEvent::kind(),
        Transition { target: State::StateA, actions: vec![recorder("early", log.clone())] },
    );
    table.insert(
        DataEvent::kind(),
        Transition { target: State::StateB, actions: vec![recorder("late", log.clone())] },
    );
    let machine = Machine { state: State::StateA, on: table };

    let state = machine.send(DataEvent { number: 9, string: "again".to_string() });

    assert_eq!(*state, State::StateB);
    assert_eq!(*log.borrow(), vec!["late".to_string()]);
}

#[test]
fn lookup_finds_only_registered_kinds() {
    let log: Log = Rc::new(RefCell::new(Vec::new()));
    let mut table = TransitionTable::new();
    assert!(table.lookup(DataEvent::kind()).is_none());
    table.insert(
        DataEvent::kind(),
        Transition { target: State::StateA, actions: vec![recorder("only", log.clone())] },
    );
    let found = table.lookup(DataEvent::kind()).expect("registered kind must be found");
    assert_eq!(found.target, State::StateA);
    assert_eq!(found.actions.len(), 1);
    assert!(table.lookup(DatalessEvent::kind()).is_none());
}

#[test]
fn process_data_event_observes_the_payload() {
    let wrapper = EventWrapper::DataEvent(DataEvent { number: 1, string: "Testing!".to_string() });
    assert_eq!(process_data_event(&wrapper), Some((1, "Testing!".to_string())));
}

#[test]
fn process_data_event_is_a_no_op_on_a_dataless_wrapper() {
    let wrapper = EventWrapper::DatalessEvent(DatalessEvent);
    assert_eq!(process_data_event(&wrapper), None);
}

#[test]
fn process_dataless_event_matches_only_its_variant() {
    let data = EventWrapper::DataEvent(DataEvent { number: 5, string: "x".to_string() });
    let dataless = EventWrapper::DatalessEvent(DatalessEvent);
    assert!(!process_dataless_event(&data));
    assert!(process_dataless_event(&dataless));
}

#[test]
fn wrapping_preserves_the_event() {
    let wrapper = DataEvent { number: 42, string: "payload".to_string() }.wrap();
    match wrapper {
        EventWrapper::DataEvent(d) => {
            assert_eq!(d.number, 42);
            assert_eq!(d.string, "payload");
        }
        EventWrapper::DatalessEvent(_) => panic!("wrap chose the wrong variant"),
    }
    assert!(matches!(DatalessEvent.wrap(), EventWrapper::DatalessEvent(_)));
}

#[test]
fn stateful_machine_keys_by_state_and_commits_the_target() {
    let log: Log = Rc::new(RefCell::new(Vec::new()));
    let mut machine = StatefulMachine::new(State::StateA);
    machine.insert(
        State::StateA.label(),
        DataEvent::kind(),
        Transition { target: State::StateB, actions: vec![recorder("a to b", log.clone())] },
    );
    machine.insert(
        State::StateB.label(),
        DataEvent::kind(),
        Transition { target: State::StateA, actions: vec![recorder("b to a", log.clone())] },
    );

    let first = machine.step(DataEvent { number: 1, string: "one".to_string() });
    assert_eq!(first, State::StateB);
    assert_eq!(machine.current_state(), State::StateB);

    let second = machine.step(DataEvent { number: 2, string: "two".to_string() });
    assert_eq!(second, State::StateA);
    assert_eq!(machine.current_state(), State::StateA);

    assert_eq!(*log.borrow(), vec!["a to b".to_string(), "b to a".to_string()]);
}

#[test]
fn stateful_machine_reports_unhandled_pairs_and_stays_put() {
    let log: Log = Rc::new(RefCell::new(Vec::new()));
    let mut machine = StatefulMachine::new(State::StateB);
    machine.insert(
        State::StateA.label(),
        DataEvent::kind(),
        Transition { target: State::StateB, actions: vec![recorder("unused", log.clone())] },
    );

    let result = machine.try_step(DataEvent { number: 1, string: "one".to_string() });

    assert_eq!(
        result,
        Err(StepError::UnregisteredTransition {
            state: State::StateB.label(),
            kind: DataEvent::kind(),
        })
    );
    assert_eq!(machine.current_state(), State::StateB);
    assert!(log.borrow().is_empty());

    machine.insert(
        State::StateB.label(),
        DatalessEvent::kind(),
        Transition { target: State::StateA, actions: vec![recorder("handled", log.clone())] },
    );
    let handled = machine.try_step(DatalessEvent);
    assert_eq!(handled, Ok(State::StateA));
    assert_eq!(machine.current_state(), State::StateA);
    assert_eq!(*log.borrow(), vec!["handled".to_string()]);
}

#[test]
fn event_kinds_are_distinct_and_data_free() {
    assert_ne!(DataEvent::kind(), DatalessEvent::kind());
    assert_eq!(DataEvent::kind(), DataEvent::kind());
}
