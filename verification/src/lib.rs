//! State-synchronisation core of a live scoreboard.
//!
//! Independently addressable components (clocks, counters, toggles, labels)
//! each hold a small piece of state, react to typed commands carried in
//! envelopes and report snapshots of their state on request. Everything here
//! is deterministic: instants are handed in by the caller, and every reaction
//! is a function of the state, the envelope and the instant.

pub mod time;
pub mod param;
pub mod component;
pub mod event;
pub mod intake;
pub mod snapshot;
pub mod scoreboard;
