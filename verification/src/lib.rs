//! A batch-oriented transaction scheduler, serial variant.
//!
//! A producer submits ordered groups of transactions ("batches"); an
//! execution component pulls individual transactions from the scheduler,
//! runs each against an isolated state context, and reports the outcome
//! back.  The scheduler decides which transaction to dispense next, keeps
//! at most one transaction in flight, consolidates per-transaction
//! outcomes into per-batch results, and emits those results in submission
//! order, exactly once per batch.
//!
//! The state machine itself is fully sequential and verified; an
//! embedding is expected to wire it to threads, channels and callback
//! sinks of its choosing.

pub mod context;
pub mod laws;
pub mod protocol;
pub mod scheduler;
pub mod serial;
pub mod shared;
pub mod worker;
pub mod workload;
