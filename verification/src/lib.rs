//! Core state machine of a Tendermint-style Byzantine fault-tolerant
//! consensus replica: a pure step function `(State, Event) -> (State,
//! Option<Message>)`. The driver aggregates votes, tracks the proposer role
//! and runs timers; this crate only decides, for each event, the next state
//! and at most one request for the host to perform.

pub mod transition;
pub mod types;
