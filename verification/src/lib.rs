//! A verified dispatch core for typed, event-driven state transitions.
//!
//! A [`machine::Machine`] owns a current state and a table mapping event
//! kinds to transitions; sending an event looks up the transition for the
//! event's kind, runs every registered action on the event's wrapper value,
//! and yields the transition's target state. The `machine` module is the
//! generic core, in which transition selection reads the event's kind alone
//! and the stored state never moves; the `stateful` module is the separate
//! extension that keys transitions by (current state, event kind) and commits
//! the target state on every dispatch; the `sample` module is a small
//! concrete event family that exercises both.

pub mod machine;
pub mod sample;
pub mod stateful;
