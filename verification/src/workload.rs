//! Workload generation interfaces.
//!
//! A workload is an endless supply of transactions or batches to play
//! against a scheduler, used to exercise or benchmark an execution
//! pipeline.  The generators themselves live with the embedding; only
//! the interfaces are defined here.

use vstd::prelude::*;

use crate::protocol::BatchPair;
use crate::protocol::TransactionPair;

verus! {

/// An error reported by a workload generator that could not produce its
/// next item; the `String` carries the diagnostic text.
#[derive(Debug)]
pub enum WorkloadError {
    InvalidState(String),
}

impl WorkloadError {
    /// The diagnostic text of this error.
    pub fn message(&self) -> (r: &str)
        ensures
            self matches WorkloadError::InvalidState(s) && r@ == s@,
    {
        match self {
            WorkloadError::InvalidState(s) => s.as_str(),
        }
    }
}

/// A source of transactions.
pub trait TransactionWorkload: Sized {
    /// Produce the next transaction.
    fn next_transaction(&mut self) -> Result<TransactionPair, WorkloadError>;
}

/// A source of batches.
pub trait BatchWorkload: Sized {
    /// Produce the next batch.
    fn next_batch(&mut self) -> Result<BatchPair, WorkloadError>;
}

} // verus!
