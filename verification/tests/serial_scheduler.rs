//! Behaviour of the serial scheduler: submission, duplicate detection,
//! cancellation, and the basic execution flow.

use transact::context::ContextId;
use transact::context::ContextLifecycle;
use transact::context::ContextManagerError;
use transact::protocol::Batch;
use transact::protocol::BatchPair;
use transact::protocol::Transaction;
use transact::protocol::TransactionReceipt;
use transact::scheduler::BatchExecutionResult;
use transact::scheduler::ExecutionTaskCompletionNotification;
use transact::scheduler::InvalidTransactionResult;
use transact::scheduler::SchedulerError;
use transact::scheduler::TransactionExecutionResult;
use transact::serial::SerialScheduler;

#[derive(Clone)]
pub struct MockContextLifecycle {}

impl MockContextLifecycle {
    pub fn new() -> Self {
        MockContextLifecycle {}
    }
}

impl ContextLifecycle for MockContextLifecycle {
    fn create_context(&mut self, _dependent_contexts: &[ContextId], _state_id: &str) -> ContextId {
        [
            0x00, 0x00, 0x00, 0x00, 0x00, 0x00, 0x00, 0x00, 0x00, 0x00, 0x00, 0x00, 0x00, 0x00,
            0x00, 0x01,
        ]
    }

    fn get_transaction_receipt(
        &self,
        _context_id: &ContextId,
        transaction_id: &str,
    ) -> Result<TransactionReceipt, ContextManagerError> {
        Ok(TransactionReceipt {
            transaction_id: transaction_id.to_string(),
            data: vec![],
        })
    }

    fn drop_context(&mut self, _context_id: ContextId) {}
}

pub fn mock_context_id() -> ContextId {
    [
        0x01, 0x02, 0x03, 0x04, 0x05, 0x06, 0x07, 0x08, 0x09, 0x0a, 0x0b, 0x0c, 0x0d, 0x0e, 0x0f,
        0x10,
    ]
}

pub fn mock_transactions(num: u8) -> Vec<Transaction> {
    (0..num)
        .map(|i| Transaction::new(format!("mock-txn-{}", i), vec![i]))
        .collect()
}

pub fn mock_batch(transactions: Vec<Transaction>) -> BatchPair {
    let signature = format!(
        "mock-batch[{}]",
        transactions
            .iter()
            .map(|txn| txn.header_signature().to_string())
            .collect::<Vec<_>>()
            .join(",")
    );
    BatchPair::new(Batch::new(signature, transactions))
}

pub fn mock_batch_with_num_txns(num: u8) -> BatchPair {
    mock_batch(mock_transactions(num))
}

fn new_scheduler() -> SerialScheduler<MockContextLifecycle> {
    let state_id = String::from("state0");
    let context_lifecycle = MockContextLifecycle::new();
    SerialScheduler::new(context_lifecycle, state_id).expect("Failed to create scheduler")
}

/// Shutting the scheduler down right after creation leaves nothing
/// behind.
#[test]
fn test_scheduler_thread_cleanup() {
    let mut scheduler = new_scheduler();
    scheduler.shutdown();
    assert!(scheduler.results().is_empty());
    assert!(scheduler.errors().is_empty());
}

/// Adding a batch twice yields `DuplicateBatch`, and the batch stays in
/// the scheduler's tracking.
#[test]
fn test_serial_scheduler_add_batch() {
    let mut scheduler = new_scheduler();

    let batch = mock_batch_with_num_txns(1);
    scheduler
        .add_batch(batch.clone())
        .expect("Failed to add batch");
    match scheduler.add_batch(batch.clone()) {
        Err(SchedulerError::DuplicateBatch(batch_id)) => {
            assert_eq!(batch_id, batch.batch().header_signature())
        }
        res => panic!("Did not get DuplicateBatch; got {:?}", res),
    }

    assert!(scheduler.batch_already_queued(&batch));

    scheduler.shutdown();
}

/// Cancelling drains the unscheduled batches; a second cancel returns
/// nothing.
#[test]
fn test_serial_scheduler_cancel() {
    let mut scheduler = new_scheduler();

    let batches = vec![mock_batch(mock_transactions(1)), {
        let txn = Transaction::new(String::from("mock-txn-b2"), vec![2]);
        mock_batch(vec![txn])
    }];

    scheduler
        .add_batch(batches[0].clone())
        .expect("Failed to add 1st batch");
    scheduler
        .add_batch(batches[1].clone())
        .expect("Failed to add 2nd batch");

    for batch in scheduler.cancel().expect("Failed 1st cancel") {
        assert!(batches.contains(&batch));
    }
    assert!(scheduler.cancel().expect("Failed 2nd cancel").is_empty());

    scheduler.shutdown();
}

/// A single invalid transaction flows through the scheduler: the task
/// comes out of the task sequence, the notification comes back, and the
/// batch result reports the transaction invalid.
#[test]
fn test_serial_scheduler_flow_with_one_transaction() {
    let mut scheduler = new_scheduler();

    let batch = mock_batch_with_num_txns(1);
    scheduler
        .add_batch(batch.clone())
        .expect("Failed to add batch");

    scheduler
        .take_task_iterator()
        .expect("Failed to get task iterator");
    let task = scheduler.next_task().expect("Failed to get task");
    let transaction_id = task.pair().transaction().header_signature().to_string();

    scheduler.notify(ExecutionTaskCompletionNotification::Invalid(
        mock_context_id(),
        InvalidTransactionResult {
            transaction_id: transaction_id.clone(),
            error_message: String::new(),
            error_data: vec![],
        },
    ));

    let expected = BatchExecutionResult {
        batch: batch.clone(),
        results: vec![TransactionExecutionResult::Invalid(
            InvalidTransactionResult {
                transaction_id,
                error_message: String::new(),
                error_data: vec![],
            },
        )],
    };
    assert_eq!(scheduler.results().len(), 1);
    assert_eq!(scheduler.results()[0], Some(expected));

    scheduler.shutdown();
}

/// While one batch is in progress, cancelling returns exactly the
/// batches that were still unscheduled, in submission order.
#[test]
fn cancel_drains_unscheduled_batches_exactly() {
    let mut scheduler = new_scheduler();

    let b0 = mock_batch(vec![Transaction::new(String::from("t-active"), vec![0])]);
    let b1 = mock_batch(vec![Transaction::new(String::from("t-queued-1"), vec![1])]);
    let b2 = mock_batch(vec![Transaction::new(String::from("t-queued-2"), vec![2])]);

    scheduler.add_batch(b0).expect("Failed to add active batch");
    scheduler.add_batch(b1.clone()).expect("Failed to add 1st queued batch");
    scheduler.add_batch(b2.clone()).expect("Failed to add 2nd queued batch");

    let drained = scheduler.cancel().expect("Failed 1st cancel");
    assert_eq!(drained, vec![b1, b2]);
    assert!(scheduler.cancel().expect("Failed 2nd cancel").is_empty());

    scheduler.shutdown();
}

/// The task iterator can be taken once; the second request fails with
/// `NoTaskIterator`.
#[test]
fn single_task_iterator() {
    let mut scheduler = new_scheduler();

    scheduler
        .take_task_iterator()
        .expect("Failed to get task iterator");
    match scheduler.take_task_iterator() {
        Err(SchedulerError::NoTaskIterator) => (),
        res => panic!("Did not get NoTaskIterator; got {:?}", res),
    }

    scheduler.shutdown();
}

/// With no batch submitted there is no task to pull.
#[test]
fn no_task_without_batches() {
    let mut scheduler = new_scheduler();
    assert!(scheduler.next_task().is_none());
    scheduler.shutdown();
}

/// A batch with no transactions completes the moment it is accepted,
/// with an empty result list.
#[test]
fn empty_batch_completes_immediately() {
    let mut scheduler = new_scheduler();

    let batch = mock_batch(vec![]);
    scheduler
        .add_batch(batch.clone())
        .expect("Failed to add empty batch");

    let expected = BatchExecutionResult {
        batch,
        results: vec![],
    };
    assert_eq!(scheduler.results().len(), 1);
    assert_eq!(scheduler.results()[0], Some(expected));
    assert!(scheduler.next_task().is_none());

    scheduler.shutdown();
}
