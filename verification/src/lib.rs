//! A deterministic replay harness for a ledger's state-transition program.
//!
//! The harness rebuilds the key-value state of a ledger at one block, optionally
//! installs a candidate build of the state-transition program under the reserved
//! code key, compares the versions of the two builds, and drives a single entry
//! point of the installed program through an execution engine with a bounded
//! resource budget.
//!
//! Everything that decides or computes lives here and is verified. Network and
//! file access and the execution engine itself are performed by the caller, who
//! feeds their results to [`driver::ReplayDriver`] one event at a time.

pub mod advisory;
pub mod bytes;
pub mod code;
pub mod command;
pub mod driver;
pub mod engine;
pub mod error;
pub mod keys;
pub mod message_queue;
pub mod overlay;
pub mod snapshot;
pub mod version;
pub mod weights;
