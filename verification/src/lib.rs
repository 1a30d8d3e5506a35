//! The core of a node-local telemetry agent, free of I/O.
//!
//! Stat sources publish their latest value, an aggregator merges each
//! source's contribution into one snapshot, and a publisher streams that
//! snapshot to subscribers. Every loop of the agent is written here as a
//! step function from the event that woke it to what it must do next, so
//! that timers, locks, channels and tasks stay with the caller.
pub mod clock;
pub mod grpc;
pub mod settings;
mod shared;
pub mod stats;
