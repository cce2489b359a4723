//! Lifecycle and wire-protocol engine for a long-running external worker
//! process.
//!
//! The library owns the logic of a desktop application's process-orchestration
//! layer: classifying the worker's line-oriented output, encoding request
//! lines, keeping at most one live worker session, and turning one logical
//! call into a request/response exchange that forwards intermediate events
//! and ends at the first terminal event. All process I/O (spawning, writing,
//! reading, killing) is performed by the surrounding program, which hands the
//! observed outcomes and events to the functions here as plain values.

pub mod bootstrap;
pub mod bridge;
pub mod codec;
pub mod errors;
pub mod protocol;
pub mod session;
