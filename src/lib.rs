//! A change-detection poller: each task's URL is fetched, reduced by an
//! extraction program, compared against the last value seen for that task,
//! and on a change the store is updated and the task's action is run.
//!
//! The library holds the result store, the change detector, the per-tick
//! state machine that orders fetch, extraction and action, and the
//! scheduling decisions. Network, subprocess and file work is done by the
//! caller, which feeds outcomes back in as plain values.

pub mod store;
pub mod text;
pub mod outcome;
pub mod detect;
pub mod config;
pub mod tick;
pub mod schedule;
