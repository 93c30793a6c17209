//! End-to-end scheduler scenarios: finalization, multi-transaction
//! flows, batch invalidation, unexpected notifications, and shutdown.

use std::cell::Cell;
use std::rc::Rc;

use transact::context::ContextId;
use transact::context::ContextLifecycle;
use transact::context::ContextManagerError;
use transact::protocol::Batch;
use transact::protocol::BatchPair;
use transact::protocol::Transaction;
use transact::protocol::TransactionReceipt;
use transact::scheduler::ExecutionTaskCompletionNotification;
use transact::scheduler::InvalidTransactionResult;
use transact::scheduler::SchedulerError;
use transact::scheduler::TransactionExecutionResult;
use transact::serial::SerialScheduler;

struct CountingContextLifecycle;

impl ContextLifecycle for CountingContextLifecycle {
    fn create_context(&mut self, dependent_contexts: &[ContextId], _state_id: &str) -> ContextId {
        let mut id = [0u8; 16];
        id[0] = dependent_contexts.len() as u8;
        id
    }

    fn get_transaction_receipt(
        &self,
        _context_id: &ContextId,
        transaction_id: &str,
    ) -> Result<TransactionReceipt, ContextManagerError> {
        Ok(TransactionReceipt {
            transaction_id: transaction_id.to_string(),
            data: vec![0xAB],
        })
    }

    fn drop_context(&mut self, _context_id: ContextId) {}
}

fn new_scheduler() -> SerialScheduler<CountingContextLifecycle> {
    SerialScheduler::new(CountingContextLifecycle, String::from("state0"))
        .expect("Failed to create scheduler")
}

fn batch_with(signature: &str, txn_ids: &[&str]) -> BatchPair {
    let transactions = txn_ids
        .iter()
        .map(|id| Transaction::new(id.to_string(), vec![]))
        .collect();
    BatchPair::new(Batch::new(signature.to_string(), transactions))
}

fn ctx() -> ContextId {
    [0x11; 16]
}

/// Submitting the same one-transaction batch twice yields Ok, then
/// `DuplicateBatch` carrying the batch's signature.
#[test]
fn duplicate_submission() {
    let mut scheduler = new_scheduler();

    let batch = batch_with("sig-A", &["t1"]);
    assert!(scheduler.add_batch(batch.clone()).is_ok());
    match scheduler.add_batch(batch) {
        Err(SchedulerError::DuplicateBatch(batch_id)) => assert_eq!(batch_id, "sig-A"),
        res => panic!("Did not get DuplicateBatch; got {:?}", res),
    }

    scheduler.shutdown();
}

/// Finalizing an idle scheduler emits the terminal sentinel exactly
/// once, and batches are rejected afterwards.
#[test]
fn finalize_terminal() {
    let mut scheduler = new_scheduler();

    scheduler.finalize().expect("Failed to finalize");
    assert_eq!(scheduler.results().len(), 1);
    assert!(scheduler.results()[0].is_none());

    // Finalize is idempotent: no second sentinel.
    scheduler.finalize().expect("Failed to finalize again");
    assert_eq!(scheduler.results().len(), 1);

    match scheduler.add_batch(batch_with("sig-B", &["t1"])) {
        Err(SchedulerError::SchedulerFinalized) => (),
        res => panic!("Did not get SchedulerFinalized; got {:?}", res),
    }

    scheduler.shutdown();
}

/// A single-transaction batch reported invalid produces a result whose
/// only entry is the reported invalid outcome.
#[test]
fn single_transaction_invalid_flow() {
    let mut scheduler = new_scheduler();

    let batch = batch_with("sig-inv", &["t1"]);
    scheduler
        .add_batch(batch.clone())
        .expect("Failed to add batch");

    scheduler
        .take_task_iterator()
        .expect("Failed to get task iterator");
    let task = scheduler.next_task().expect("Failed to get task");
    assert_eq!(task.pair().transaction().header_signature(), "t1");

    scheduler.notify(ExecutionTaskCompletionNotification::Invalid(
        ctx(),
        InvalidTransactionResult {
            transaction_id: String::from("t1"),
            error_message: String::new(),
            error_data: vec![],
        },
    ));

    assert_eq!(scheduler.results().len(), 1);
    let result = scheduler.results()[0].clone().expect("Got None result");
    assert_eq!(result.batch, batch);
    assert_eq!(
        result.results,
        vec![TransactionExecutionResult::Invalid(
            InvalidTransactionResult {
                transaction_id: String::from("t1"),
                error_message: String::new(),
                error_data: vec![],
            }
        )]
    );

    scheduler.shutdown();
}

/// Three valid transactions flow through one at a time, in submission
/// order, and consolidate into one batch result with three valid
/// entries.
#[test]
fn three_transaction_valid_flow() {
    let mut scheduler = new_scheduler();

    let batch = batch_with("sig-3", &["t1", "t2", "t3"]);
    scheduler
        .add_batch(batch.clone())
        .expect("Failed to add batch");

    scheduler
        .take_task_iterator()
        .expect("Failed to get task iterator");

    for expected_id in ["t1", "t2", "t3"] {
        let task = scheduler.next_task().expect("Failed to get task");
        assert_eq!(task.pair().transaction().header_signature(), expected_id);
        // Strictly one at a time: no further task before the
        // acknowledgement arrives.
        assert!(scheduler.next_task().is_none());
        scheduler.notify(ExecutionTaskCompletionNotification::Valid(
            ctx(),
            expected_id.to_string(),
        ));
    }

    assert_eq!(scheduler.results().len(), 1);
    let result = scheduler.results()[0].clone().expect("Got None result");
    assert_eq!(result.batch, batch);
    assert_eq!(result.results.len(), 3);
    for (i, expected_id) in ["t1", "t2", "t3"].iter().enumerate() {
        match &result.results[i] {
            TransactionExecutionResult::Valid(receipt) => {
                assert_eq!(&receipt.transaction_id, expected_id)
            }
            res => panic!("Did not get valid result; got {:?}", res),
        }
    }

    scheduler.shutdown();
}

/// One invalid outcome invalidates the whole batch: the result has one
/// invalid entry per transaction, in batch order, and no further task
/// is dispatched from that batch.
#[test]
fn invalid_transaction_invalidates_batch() {
    let mut scheduler = new_scheduler();

    let batch = batch_with("sig-atomic", &["t1", "t2", "t3"]);
    scheduler
        .add_batch(batch.clone())
        .expect("Failed to add batch");

    scheduler
        .take_task_iterator()
        .expect("Failed to get task iterator");

    let first = scheduler.next_task().expect("Failed to get 1st task");
    scheduler.notify(ExecutionTaskCompletionNotification::Valid(
        ctx(),
        first.pair().transaction().header_signature().to_string(),
    ));

    let second = scheduler.next_task().expect("Failed to get 2nd task");
    assert_eq!(second.pair().transaction().header_signature(), "t2");
    scheduler.notify(ExecutionTaskCompletionNotification::Invalid(
        ctx(),
        InvalidTransactionResult {
            transaction_id: String::from("t2"),
            error_message: String::from("bad input"),
            error_data: vec![0x01],
        },
    ));

    // The whole batch is reported invalid, one entry per transaction.
    assert_eq!(scheduler.results().len(), 1);
    let result = scheduler.results()[0].clone().expect("Got None result");
    assert_eq!(result.batch, batch);
    assert_eq!(
        result.results,
        vec![
            TransactionExecutionResult::Invalid(InvalidTransactionResult {
                transaction_id: String::from("t1"),
                error_message: String::new(),
                error_data: vec![],
            }),
            TransactionExecutionResult::Invalid(InvalidTransactionResult {
                transaction_id: String::from("t2"),
                error_message: String::from("bad input"),
                error_data: vec![0x01],
            }),
            TransactionExecutionResult::Invalid(InvalidTransactionResult {
                transaction_id: String::from("t3"),
                error_message: String::new(),
                error_data: vec![],
            }),
        ]
    );

    // The third transaction is never dispatched.
    assert!(scheduler.next_task().is_none());

    scheduler.shutdown();
}

/// A notification for a transaction the scheduler is not awaiting is
/// surfaced through the error sink as `UnexpectedNotification`.
#[test]
fn unexpected_notification() {
    let mut scheduler = new_scheduler();

    scheduler.notify(ExecutionTaskCompletionNotification::Valid(
        ctx(),
        String::from("ghost"),
    ));

    assert_eq!(scheduler.errors().len(), 1);
    match &scheduler.errors()[0] {
        SchedulerError::UnexpectedNotification(unexpected_id) => {
            assert_eq!(unexpected_id, "ghost")
        }
        err => panic!("Received unexpected error: {:?}", err),
    }
    // The scheduler's state is otherwise untouched.
    assert!(scheduler.results().is_empty());
    assert!(scheduler.next_task().is_none());

    scheduler.shutdown();
}

/// The sentinel follows the last batch result when work was pending at
/// finalization time.
#[test]
fn sentinel_after_last_result() {
    let mut scheduler = new_scheduler();

    let batch = batch_with("sig-last", &["t1"]);
    scheduler
        .add_batch(batch.clone())
        .expect("Failed to add batch");
    scheduler.finalize().expect("Failed to finalize");

    // No sentinel yet: a batch is still in progress.
    assert!(scheduler.results().is_empty());

    scheduler
        .take_task_iterator()
        .expect("Failed to get task iterator");
    let task = scheduler.next_task().expect("Failed to get task");
    scheduler.notify(ExecutionTaskCompletionNotification::Valid(
        ctx(),
        task.pair().transaction().header_signature().to_string(),
    ));

    assert_eq!(scheduler.results().len(), 2);
    assert!(scheduler.results()[0].is_some());
    assert!(scheduler.results()[1].is_none());

    scheduler.shutdown();
}

/// Batches are executed in submission order, and their results are
/// emitted in submission order.
#[test]
fn batches_complete_in_submission_order() {
    let mut scheduler = new_scheduler();

    let b1 = batch_with("sig-first", &["a1"]);
    let b2 = batch_with("sig-second", &["b1"]);
    scheduler.add_batch(b1.clone()).expect("Failed to add 1st batch");
    scheduler.add_batch(b2.clone()).expect("Failed to add 2nd batch");

    scheduler
        .take_task_iterator()
        .expect("Failed to get task iterator");

    let first = scheduler.next_task().expect("Failed to get 1st task");
    assert_eq!(first.pair().transaction().header_signature(), "a1");
    scheduler.notify(ExecutionTaskCompletionNotification::Valid(
        ctx(),
        String::from("a1"),
    ));

    let second = scheduler.next_task().expect("Failed to get 2nd task");
    assert_eq!(second.pair().transaction().header_signature(), "b1");
    scheduler.notify(ExecutionTaskCompletionNotification::Valid(
        ctx(),
        String::from("b1"),
    ));

    assert_eq!(scheduler.results().len(), 2);
    assert_eq!(
        scheduler.results()[0].as_ref().expect("Got None result").batch,
        b1
    );
    assert_eq!(
        scheduler.results()[1].as_ref().expect("Got None result").batch,
        b2
    );

    scheduler.shutdown();
}

/// A lifecycle that counts creations and releases through shared
/// counters, so a test can observe the scheduler's context handling.
struct CountedLifecycle {
    created: Rc<Cell<usize>>,
    dropped: Rc<Cell<usize>>,
}

impl ContextLifecycle for CountedLifecycle {
    fn create_context(&mut self, _dependent_contexts: &[ContextId], _state_id: &str) -> ContextId {
        self.created.set(self.created.get() + 1);
        [self.created.get() as u8; 16]
    }

    fn get_transaction_receipt(
        &self,
        _context_id: &ContextId,
        transaction_id: &str,
    ) -> Result<TransactionReceipt, ContextManagerError> {
        Ok(TransactionReceipt {
            transaction_id: transaction_id.to_string(),
            data: vec![],
        })
    }

    fn drop_context(&mut self, _context_id: ContextId) {
        self.dropped.set(self.dropped.get() + 1);
    }
}

/// Shutting down with a batch in flight abandons it without a result
/// and releases its contexts: every context created has been dropped
/// by the time shutdown returns.
#[test]
fn shutdown_releases_contexts_of_batch_in_flight() {
    let created = Rc::new(Cell::new(0));
    let dropped = Rc::new(Cell::new(0));
    let lifecycle = CountedLifecycle {
        created: created.clone(),
        dropped: dropped.clone(),
    };
    let mut scheduler = SerialScheduler::new(lifecycle, String::from("state0"))
        .expect("Failed to create scheduler");

    let batch = batch_with("sig-halt", &["t1", "t2"]);
    scheduler.add_batch(batch).expect("Failed to add batch");
    let task = scheduler.next_task().expect("Failed to get task");
    scheduler.notify(ExecutionTaskCompletionNotification::Valid(
        *task.context_id(),
        task.pair().transaction().header_signature().to_string(),
    ));
    assert_eq!(created.get(), 2);
    assert_eq!(dropped.get(), 0);

    scheduler.shutdown();
    assert_eq!(created.get(), dropped.get());
    // No synthetic result was emitted for the abandoned batch.
    assert!(scheduler.results().is_empty());

    // A second shutdown changes nothing.
    scheduler.shutdown();
    assert_eq!(created.get(), dropped.get());
}

/// Contexts of completed batches are all released by the time shutdown
/// returns, even on an idle scheduler.
#[test]
fn shutdown_after_completed_work_leaks_nothing() {
    let created = Rc::new(Cell::new(0));
    let dropped = Rc::new(Cell::new(0));
    let lifecycle = CountedLifecycle {
        created: created.clone(),
        dropped: dropped.clone(),
    };
    let mut scheduler = SerialScheduler::new(lifecycle, String::from("state0"))
        .expect("Failed to create scheduler");

    let batch = batch_with("sig-done", &["t1"]);
    scheduler.add_batch(batch).expect("Failed to add batch");
    let task = scheduler.next_task().expect("Failed to get task");
    scheduler.notify(ExecutionTaskCompletionNotification::Valid(
        *task.context_id(),
        task.pair().transaction().header_signature().to_string(),
    ));
    assert_eq!(scheduler.results().len(), 1);
    assert_eq!(created.get(), 1);
    assert_eq!(dropped.get(), 1);

    scheduler.shutdown();
    assert_eq!(created.get(), dropped.get());
}

/// After shutdown the core no longer runs: adding a batch and
/// finalizing report the worker as disconnected, and notifications are
/// silently dropped.
#[test]
fn operations_after_shutdown() {
    let mut scheduler = new_scheduler();
    scheduler.shutdown();

    match scheduler.add_batch(batch_with("sig-late", &["t1"])) {
        Err(SchedulerError::Internal(msg)) => assert_eq!(
            msg,
            "scheduler's core thread disconnected: sending on a closed channel"
        ),
        res => panic!("Did not get Internal; got {:?}", res),
    }
    assert!(scheduler.next_task().is_none());

    match scheduler.finalize() {
        Err(SchedulerError::Internal(msg)) => assert_eq!(
            msg,
            "scheduler's core thread disconnected: sending on a closed channel"
        ),
        res => panic!("Did not get Internal; got {:?}", res),
    }

    scheduler.notify(ExecutionTaskCompletionNotification::Valid(
        ctx(),
        String::from("late"),
    ));
    assert!(scheduler.errors().is_empty());
    assert!(scheduler.results().is_empty());
}
