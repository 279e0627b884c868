//! Client-side consumer of a chain-aware block-data stream.
//!
//! The crate holds the decisions of the consumer: how faults are classified,
//! how long to wait before a reconnect, where a session resumes, how a rollback
//! unwinds applied blocks, and when a cursor counts as persisted. The caller
//! performs the network and storage work and reports each outcome as an event.

pub mod backoff;
pub mod consumer;
pub mod error;
pub mod frame;
pub mod ledger;
pub mod model;
pub mod sink;
pub mod text;
