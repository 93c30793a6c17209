//! Value objects: construction, accessors, equality, and the scheduler
//! collaborator types around them.

use transact::context::ContextId;
use transact::context::ContextLifecycle;
use transact::context::ContextManagerError;
use transact::protocol::Batch;
use transact::protocol::BatchPair;
use transact::protocol::Transaction;
use transact::protocol::TransactionPair;
use transact::protocol::TransactionReceipt;
use transact::scheduler::BatchExecutionResult;
use transact::scheduler::ExecutionTask;
use transact::scheduler::InvalidTransactionResult;
use transact::scheduler::TransactionExecutionResult;
use transact::scheduler::ExecutionTaskCompletionNotification;
use transact::scheduler::SchedulerError;
use transact::serial::SerialScheduler;
use transact::workload::BatchWorkload;
use transact::workload::TransactionWorkload;
use transact::workload::WorkloadError;

#[test]
fn execution_task_accessors() {
    let txn = Transaction::new(String::from("t1"), vec![1, 2, 3]);
    let pair = TransactionPair::new(txn);
    let context_id: ContextId = [7u8; 16];

    let task = ExecutionTask::new(pair, context_id);
    assert_eq!(task.pair().transaction().header_signature(), "t1");
    assert_eq!(task.context_id(), &[7u8; 16]);

    let (pair, context_id) = task.take();
    assert_eq!(pair.transaction().header_signature(), "t1");
    assert_eq!(pair.transaction().payload(), &vec![1, 2, 3]);
    assert_eq!(context_id, [7u8; 16]);
}

#[test]
fn transaction_equality() {
    let a = Transaction::new(String::from("t1"), vec![1]);
    let b = Transaction::new(String::from("t1"), vec![1]);
    let c = Transaction::new(String::from("t1"), vec![2]);
    let d = Transaction::new(String::from("t2"), vec![1]);
    assert_eq!(a, b);
    assert_ne!(a, c);
    assert_ne!(a, d);
}

#[test]
fn transaction_duplicate_is_value_identical() {
    let txn = Transaction::new(String::from("t1"), vec![9, 8]);
    let copy = txn.duplicate();
    assert_eq!(txn, copy);
}

#[test]
fn batch_equality() {
    let batch = |sig: &str, payload: u8| {
        BatchPair::new(Batch::new(
            sig.to_string(),
            vec![Transaction::new(String::from("t1"), vec![payload])],
        ))
    };
    assert_eq!(batch("b1", 1), batch("b1", 1));
    assert_ne!(batch("b1", 1), batch("b2", 1));
    assert_ne!(batch("b1", 1), batch("b1", 2));
}

#[test]
fn batch_accessors() {
    let transactions = vec![
        Transaction::new(String::from("t1"), vec![]),
        Transaction::new(String::from("t2"), vec![]),
    ];
    let pair = BatchPair::new(Batch::new(String::from("b1"), transactions));
    assert_eq!(pair.batch().header_signature(), "b1");
    let ids: Vec<&str> = pair
        .batch()
        .transactions()
        .iter()
        .map(|txn| txn.header_signature())
        .collect();
    assert_eq!(ids, vec!["t1", "t2"]);
}

#[test]
fn execution_result_equality() {
    let valid = |id: &str| {
        TransactionExecutionResult::Valid(TransactionReceipt {
            transaction_id: id.to_string(),
            data: vec![],
        })
    };
    let invalid = |id: &str| {
        TransactionExecutionResult::Invalid(InvalidTransactionResult {
            transaction_id: id.to_string(),
            error_message: String::new(),
            error_data: vec![],
        })
    };
    assert_eq!(valid("t1"), valid("t1"));
    assert_ne!(valid("t1"), valid("t2"));
    assert_ne!(valid("t1"), invalid("t1"));
    assert_eq!(invalid("t1"), invalid("t1"));

    let batch = BatchPair::new(Batch::new(
        String::from("b1"),
        vec![Transaction::new(String::from("t1"), vec![])],
    ));
    let result_a = BatchExecutionResult {
        batch: batch.clone(),
        results: vec![valid("t1")],
    };
    let result_b = BatchExecutionResult {
        batch: batch.clone(),
        results: vec![valid("t1")],
    };
    let result_c = BatchExecutionResult {
        batch,
        results: vec![invalid("t1")],
    };
    assert_eq!(result_a, result_b);
    assert_ne!(result_a, result_c);
}

#[test]
fn notification_equality() {
    let invalid = |ctx: u8, id: &str| {
        ExecutionTaskCompletionNotification::Invalid(
            [ctx; 16],
            InvalidTransactionResult {
                transaction_id: id.to_string(),
                error_message: String::new(),
                error_data: vec![],
            },
        )
    };
    let valid = |ctx: u8, id: &str| {
        ExecutionTaskCompletionNotification::Valid([ctx; 16], id.to_string())
    };
    assert_eq!(valid(1, "t1"), valid(1, "t1"));
    assert_ne!(valid(1, "t1"), valid(2, "t1"));
    assert_ne!(valid(1, "t1"), valid(1, "t2"));
    assert_eq!(invalid(1, "t1"), invalid(1, "t1"));
    assert_ne!(invalid(1, "t1"), invalid(1, "t2"));
    assert_ne!(valid(1, "t1"), invalid(1, "t1"));
}

struct FixedWorkload {
    count: u8,
}

impl TransactionWorkload for FixedWorkload {
    fn next_transaction(&mut self) -> Result<TransactionPair, WorkloadError> {
        self.count += 1;
        Ok(TransactionPair::new(Transaction::new(
            format!("w-txn-{}", self.count),
            vec![],
        )))
    }
}

impl BatchWorkload for FixedWorkload {
    fn next_batch(&mut self) -> Result<BatchPair, WorkloadError> {
        self.count += 1;
        Ok(BatchPair::new(Batch::new(
            format!("w-batch-{}", self.count),
            vec![],
        )))
    }
}

#[test]
fn workloads_produce_items() {
    let mut workload = FixedWorkload { count: 0 };
    workload.next_transaction().unwrap();
    workload.next_transaction().unwrap();
    let mut workload = FixedWorkload { count: 0 };
    workload.next_batch().unwrap();
    workload.next_batch().unwrap();
}

#[test]
fn workload_error_message() {
    let error = WorkloadError::InvalidState(String::from("exhausted"));
    assert_eq!(error.message(), "exhausted");
}

struct NullContextLifecycle;

impl ContextLifecycle for NullContextLifecycle {
    fn create_context(&mut self, _dependent_contexts: &[ContextId], _state_id: &str) -> ContextId {
        [0u8; 16]
    }

    fn get_transaction_receipt(
        &self,
        _context_id: &ContextId,
        transaction_id: &str,
    ) -> Result<TransactionReceipt, ContextManagerError> {
        Err(ContextManagerError::MissingContextError(
            transaction_id.to_string(),
        ))
    }

    fn drop_context(&mut self, _context_id: ContextId) {}
}

/// A failing receipt request surfaces as an `Internal` scheduler error
/// and the scheduler does not advance past the transaction.
#[test]
fn receipt_failure_surfaces_internal_error() {
    let mut scheduler = SerialScheduler::new(NullContextLifecycle, String::from("state0"))
        .expect("Failed to create scheduler");

    let batch = BatchPair::new(Batch::new(
        String::from("b1"),
        vec![Transaction::new(String::from("t1"), vec![])],
    ));
    scheduler.add_batch(batch).expect("Failed to add batch");

    let task = scheduler.next_task().expect("Failed to get task");
    scheduler.notify(ExecutionTaskCompletionNotification::Valid(
        [0u8; 16],
        task.pair().transaction().header_signature().to_string(),
    ));

    assert!(scheduler.results().is_empty());
    assert_eq!(scheduler.errors().len(), 1);
    match &scheduler.errors()[0] {
        SchedulerError::Internal(msg) => {
            assert_eq!(msg, "Unable to find specified Context: \"t1\"")
        }
        err => panic!("Did not get Internal; got {:?}", err),
    }
}
