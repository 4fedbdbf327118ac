//! Fan-out and rotation engine for a stream duplicator.
//!
//! A single byte stream is broadcast to an ordered set of sinks: one
//! pass-through destination and any number of rotating file sinks. Each
//! rotating sink moves onto a fresh numbered file once a size threshold is
//! crossed, and per-sink failures are classified by a configurable policy
//! that decides between suppressing the failing sink and aborting the run.
//!
//! The crate holds the decision and bookkeeping logic: which file a sink
//! writes to next, when it rotates, which retained file is evicted, which
//! sinks survive a broadcast call and what the call reports. The actual
//! system calls (opening, writing, enumerating and deleting files) are
//! performed by the surrounding program, which feeds their outcomes back
//! into these verified state transitions.

pub mod cli;
pub mod errors;
pub mod generic_writer;
pub mod multi_writer;
pub mod rotating_writer;
pub mod single_writer;
pub mod sort;
pub mod text;
