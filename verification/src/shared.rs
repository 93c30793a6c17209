//! The shared state record of a serial scheduler: the queue of
//! unscheduled batches, the current-batch slot, and the finalization
//! flag.
//!
//! In a threaded embedding this record is the one piece of memory shared
//! between the submission side and the scheduler's worker; everything
//! else travels over channels.  The record itself is plain data, and
//! every operation on it is verified.

use vstd::prelude::*;

use crate::context::ContextId;
use crate::protocol::BatchPair;
use crate::protocol::BatchView;
use crate::scheduler::TransactionExecutionResult;
use crate::scheduler::TransactionResultView;
use crate::scheduler::results_view;

verus! {

/// The sequence of views of a list of batches.
pub open spec fn batches_view(batches: Seq<BatchPair>) -> Seq<BatchView> {
    batches.map_values(|b: BatchPair| b@)
}

/// The sequence of views of a list of context identifiers.
pub open spec fn contexts_view(contexts: Seq<ContextId>) -> Seq<Seq<u8>> {
    contexts.map_values(|c: ContextId| c@)
}

/// The view of an optional context identifier.
pub open spec fn opt_context_view(context: Option<ContextId>) -> Option<Seq<u8>> {
    match context {
        Some(c) => Some(c@),
        None => None,
    }
}

/// The view of an optional transaction identifier.
pub open spec fn opt_string_view(s: Option<String>) -> Option<Seq<char>> {
    match s {
        Some(s) => Some(s@),
        None => None,
    }
}

/// Mathematical model of a [`BatchExecution`].
#[verifier::ext_equal]
pub struct ExecutionView {
    pub batch: BatchView,
    pub next_index: int,
    pub accumulated: Seq<TransactionResultView>,
    pub previous_context_id: Option<Seq<u8>>,
    pub dispatched_transaction_id: Option<Seq<char>>,
    pub contexts: Seq<Seq<u8>>,
}

/// The state of the batch currently being executed.
///
/// `next_index` counts the transactions dispatched so far, so the
/// remaining transactions are the batch's suffix from that index on.
/// `accumulated` holds one result per acknowledged transaction, aligned
/// with the batch's order.  `contexts` records, in creation order, every
/// context created for this batch and not yet released.
#[derive(Debug)]
pub struct BatchExecution {
    /// The batch being executed.
    pub batch: BatchPair,
    /// How many of the batch's transactions have been dispatched.
    pub next_index: usize,
    /// The results accumulated for the acknowledged transactions.
    pub accumulated: Vec<TransactionExecutionResult>,
    /// The context of the most recently completed transaction.
    pub previous_context_id: Option<ContextId>,
    /// The identifier of the transaction currently in flight.
    pub dispatched_transaction_id: Option<String>,
    /// Every context created for this batch, in creation order.
    pub contexts: Vec<ContextId>,
}

impl View for BatchExecution {
    type V = ExecutionView;

    open spec fn view(&self) -> ExecutionView {
        ExecutionView {
            batch: self.batch@,
            next_index: self.next_index as int,
            accumulated: results_view(self.accumulated@),
            previous_context_id: opt_context_view(self.previous_context_id),
            dispatched_transaction_id: opt_string_view(self.dispatched_transaction_id),
            contexts: contexts_view(self.contexts@),
        }
    }
}

/// Mathematical model of a [`Shared`] record.
#[verifier::ext_equal]
pub struct SharedView {
    pub unscheduled: Seq<BatchView>,
    pub current: Option<ExecutionView>,
    pub finalized: bool,
}

/// Whether a batch with the given header signature is queued or in
/// progress.
pub open spec fn tracks(v: SharedView, sig: Seq<char>) -> bool {
    ||| exists|i: int|
        0 <= i < v.unscheduled.len() && #[trigger] v.unscheduled[i].header_signature == sig
    ||| v.current matches Some(c) && c.batch.header_signature == sig
}

/// Tracked header signatures are unique: no two queued batches share a
/// signature, and no queued batch shares the signature of the batch in
/// progress.
pub open spec fn unique_signatures(v: SharedView) -> bool {
    &&& forall|i: int, j: int|
        0 <= i < v.unscheduled.len() && 0 <= j < v.unscheduled.len() && i != j ==> (
        #[trigger] v.unscheduled[i]).header_signature != (
        #[trigger] v.unscheduled[j]).header_signature
    &&& v.current matches Some(c) ==> forall|i: int|
        0 <= i < v.unscheduled.len() ==> (#[trigger] v.unscheduled[i]).header_signature
            != c.batch.header_signature
}

/// The guarded state record of a serial scheduler: the queue of
/// unscheduled batches (oldest first), the current-batch slot, and the
/// finalization flag.
#[derive(Debug)]
pub struct Shared {
    /// Batches accepted but not yet activated, oldest first.
    pub unscheduled: Vec<BatchPair>,
    /// The batch currently being executed, if any.
    pub current: Option<BatchExecution>,
    /// Whether the scheduler has been finalized.
    pub finalized: bool,
}

impl View for Shared {
    type V = SharedView;

    open spec fn view(&self) -> SharedView {
        SharedView {
            unscheduled: batches_view(self.unscheduled@),
            current: match self.current {
                Some(c) => Some(c@),
                None => None,
            },
            finalized: self.finalized,
        }
    }
}

impl Shared {
    /// A fresh record: nothing queued, nothing in progress, not
    /// finalized.
    pub fn new() -> (shared: Self)
        ensures
            shared@ == (SharedView {
                unscheduled: Seq::<BatchView>::empty(),
                current: None,
                finalized: false,
            }),
    {
        let shared = Shared { unscheduled: Vec::new(), current: None, finalized: false };
        proof {
            assert(shared@ =~= (SharedView {
                unscheduled: Seq::<BatchView>::empty(),
                current: None,
                finalized: false,
            }));
        }
        shared
    }

    /// Whether the scheduler has been finalized.
    pub fn finalized(&self) -> (r: bool)
        ensures
            r == self@.finalized,
    {
        self.finalized
    }

    /// Set or clear the finalization flag.
    pub fn set_finalized(&mut self, finalized: bool)
        ensures
            final(self)@ == (SharedView { finalized, ..old(self)@ }),
    {
        self.finalized = finalized;
        proof {
            assert(self@ =~= (SharedView { finalized, ..old(self)@ }));
        }
    }

    /// Append a batch to the unscheduled queue.
    pub fn add_unscheduled_batch(&mut self, batch: BatchPair)
        ensures
            final(self)@ == (SharedView {
                unscheduled: old(self)@.unscheduled.push(batch@),
                ..old(self)@
            }),
    {
        let ghost pre = self@;
        self.unscheduled.push(batch);
        proof {
            assert(batches_view(self.unscheduled@) =~= pre.unscheduled.push(batch@));
            assert(self@ =~= (SharedView { unscheduled: pre.unscheduled.push(batch@), ..pre }));
        }
    }

    /// Whether the given batch's header signature matches a batch that
    /// is queued or in progress.
    pub fn batch_already_queued(&self, batch: &BatchPair) -> (r: bool)
        ensures
            r == tracks(self@, batch@.header_signature),
    {
        let sig = batch.batch().header_signature_string();
        let n = self.unscheduled.len();
        let mut i: usize = 0;
        while i < n
            invariant
                n == self.unscheduled@.len(),
                i <= n,
                sig@ == batch@.header_signature,
                forall|j: int|
                    0 <= j < i ==> #[trigger] self@.unscheduled[j].header_signature != sig@,
            decreases n - i,
        {
            proof {
                assert(self@.unscheduled[i as int] == self.unscheduled@[i as int]@);
            }
            if *self.unscheduled[i].batch().header_signature_string() == *sig {
                return true;
            }
            i += 1;
        }
        match &self.current {
            Some(execution) => *execution.batch.batch().header_signature_string() == *sig,
            None => {
                proof {
                    assert(!tracks(self@, sig@));
                }
                false
            },
        }
    }

    /// Atomically empty the unscheduled queue, returning the drained
    /// batches in submission order.
    pub fn drain_unscheduled_batches(&mut self) -> (drained: Vec<BatchPair>)
        ensures
            batches_view(drained@) == old(self)@.unscheduled,
            final(self)@ == (SharedView { unscheduled: Seq::<BatchView>::empty(), ..old(self)@ }),
    {
        let ghost pre = self@;
        let mut drained: Vec<BatchPair> = Vec::new();
        core::mem::swap(&mut drained, &mut self.unscheduled);
        proof {
            assert(batches_view(Seq::<BatchPair>::empty()) =~= Seq::<BatchView>::empty());
            assert(self@ =~= (SharedView { unscheduled: Seq::<BatchView>::empty(), ..pre }));
        }
        drained
    }

    /// Remove and return the oldest unscheduled batch, if any.
    pub fn pop_front_unscheduled(&mut self) -> (r: Option<BatchPair>)
        ensures
            old(self)@.unscheduled.len() == 0 ==> r is None && final(self)@ == old(self)@,
            old(self)@.unscheduled.len() > 0 ==> {
                &&& r matches Some(batch) && batch@ == old(self)@.unscheduled[0]
                &&& final(self)@ == (SharedView {
                    unscheduled: old(self)@.unscheduled.drop_first(),
                    ..old(self)@
                })
            },
    {
        let ghost pre = self@;
        if self.unscheduled.len() == 0 {
            proof {
                assert(self@ =~= pre);
            }
            None
        } else {
            let batch = self.unscheduled.remove(0);
            proof {
                assert(batches_view(self.unscheduled@) =~= pre.unscheduled.drop_first());
                assert(self@ =~= (SharedView {
                    unscheduled: pre.unscheduled.drop_first(),
                    ..pre
                }));
            }
            Some(batch)
        }
    }

    /// Take the current-batch slot, leaving it empty.
    pub fn take_current(&mut self) -> (r: Option<BatchExecution>)
        ensures
            final(self)@ == (SharedView { current: None, ..old(self)@ }),
            match r {
                Some(execution) => old(self)@.current == Some(execution@),
                None => old(self)@.current is None,
            },
    {
        let ghost pre = self@;
        let r = self.current.take();
        proof {
            assert(self@ =~= (SharedView { current: None, ..pre }));
        }
        r
    }

    /// Fill the current-batch slot.
    pub fn put_current(&mut self, execution: BatchExecution)
        ensures
            final(self)@ == (SharedView { current: Some(execution@), ..old(self)@ }),
    {
        let ghost pre = self@;
        self.current = Some(execution);
        proof {
            assert(self@ =~= (SharedView { current: Some(execution@), ..pre }));
        }
    }
}

} // verus!
