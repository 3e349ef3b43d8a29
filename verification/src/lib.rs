//! Discovery of nearby smart-cube peripherals over short-range radio.
//!
//! The crate holds the decision logic of a single scan invocation: picking
//! one local radio adapter, driving the lifecycle of a timed discovery
//! window as a state machine, and classifying the observed peripherals by
//! name heuristics. The radio calls themselves (asynchronous platform I/O)
//! are performed by the embedding program, which asks the state machine for
//! the next action and hands back the outcome as an event.

pub mod classify;
pub mod device;
pub mod error;
pub mod session;
