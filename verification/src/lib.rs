//! A verified core for a Task Execution Service (TES) backend adapter.
//!
//! The adapter translates an engine task into the remote service's task
//! schema, drives a polling state machine from submission to terminal
//! completion, and aggregates the remote per-step execution logs into an
//! ordered, non-empty result. Everything here is pure: a driver supplies
//! the network effects and feeds their outcomes back in as plain values.

pub mod task;
pub mod remote;
pub mod translate;
pub mod outcome;
pub mod aggregate;
pub mod poll;
pub mod backend;
