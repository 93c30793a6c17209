//! Batch scheduling with transaction execution APIs.
//!
//! A scheduler executes one or more batches, emitting a
//! [`BatchExecutionResult`] as a result of the execution of each batch.
//! A batch contains one or more transactions; each transaction within a
//! batch is executed and then consolidated to generate the batch result.
//!
//! For a scheduler to execute batches, its execution side must be driven
//! by a component that pulls [`ExecutionTask`]s and reports
//! [`ExecutionTaskCompletionNotification`]s back to the scheduler.

use vstd::prelude::*;
use vstd::string::StringExecFns;

use crate::context::ContextId;
use crate::protocol::ReceiptView;
use crate::protocol::TransactionPair;
use crate::protocol::TransactionReceipt;
use crate::protocol::TransactionView;
use crate::protocol::bytes_eq;

verus! {

/// Mathematical model of an [`ExecutionTask`].
#[verifier::ext_equal]
pub struct TaskView {
    pub pair: TransactionView,
    pub context_id: Seq<u8>,
}

/// A transaction and associated information required to execute it.
#[derive(Debug)]
pub struct ExecutionTask {
    pair: TransactionPair,
    context_id: ContextId,
}

impl View for ExecutionTask {
    type V = TaskView;

    closed spec fn view(&self) -> TaskView {
        TaskView { pair: self.pair@, context_id: self.context_id@ }
    }
}

impl ExecutionTask {
    /// Create a new `ExecutionTask`.
    pub fn new(pair: TransactionPair, context_id: ContextId) -> (task: Self)
        ensures
            task@.pair == pair@,
            task@.context_id == context_id@,
    {
        ExecutionTask { pair, context_id }
    }

    /// The transaction to be executed.
    pub fn pair(&self) -> (pair: &TransactionPair)
        ensures
            pair@ == self@.pair,
    {
        &self.pair
    }

    /// The identifier of the context to be used when accessing state.
    pub fn context_id(&self) -> (context_id: &ContextId)
        ensures
            context_id@ == self@.context_id,
    {
        &self.context_id
    }

    /// Decompose into its components.
    pub fn take(self) -> (parts: (TransactionPair, ContextId))
        ensures
            parts.0@ == self@.pair,
            parts.1@ == self@.context_id,
    {
        (self.pair, self.context_id)
    }
}

/// Mathematical model of an [`InvalidTransactionResult`].
#[verifier::ext_equal]
pub struct InvalidResultView {
    pub transaction_id: Seq<char>,
    pub error_message: Seq<char>,
    pub error_data: Seq<u8>,
}

/// Result from executing an invalid transaction.
#[derive(Debug, Clone, Eq, Hash)]
pub struct InvalidTransactionResult {
    /// Transaction identifier.
    pub transaction_id: String,
    /// Human-readable reason explaining why the transaction was invalid.
    pub error_message: String,
    /// Transaction-specific error data which can be interpreted by
    /// clients familiar with this transaction's family.
    pub error_data: Vec<u8>,
}

impl View for InvalidTransactionResult {
    type V = InvalidResultView;

    open spec fn view(&self) -> InvalidResultView {
        InvalidResultView {
            transaction_id: self.transaction_id@,
            error_message: self.error_message@,
            error_data: self.error_data@,
        }
    }
}

impl PartialEq for InvalidTransactionResult {
    fn eq(&self, other: &Self) -> (r: bool) {
        let r = self.transaction_id == other.transaction_id && self.error_message
            == other.error_message && bytes_eq(&self.error_data, &other.error_data);
        proof {
            if r {
                assert(self@ =~= other@);
            }
        }
        r
    }
}

impl vstd::std_specs::cmp::PartialEqSpecImpl for InvalidTransactionResult {
    open spec fn obeys_eq_spec() -> bool {
        true
    }

    open spec fn eq_spec(&self, other: &Self) -> bool {
        self@ == other@
    }
}

/// Mathematical model of a [`TransactionExecutionResult`].
#[verifier::ext_equal]
pub enum TransactionResultView {
    Invalid(InvalidResultView),
    Valid(ReceiptView),
}

/// Result from executing a transaction.
#[derive(Debug, Clone, Eq, Hash)]
pub enum TransactionExecutionResult {
    /// The transaction was invalid.
    Invalid(InvalidTransactionResult),
    /// The transaction was valid and execution produced a receipt.
    Valid(TransactionReceipt),
}

impl View for TransactionExecutionResult {
    type V = TransactionResultView;

    open spec fn view(&self) -> TransactionResultView {
        match self {
            TransactionExecutionResult::Invalid(res) => TransactionResultView::Invalid(res@),
            TransactionExecutionResult::Valid(receipt) => TransactionResultView::Valid(receipt@),
        }
    }
}

impl PartialEq for TransactionExecutionResult {
    fn eq(&self, other: &Self) -> (r: bool) {
        match (self, other) {
            (
                TransactionExecutionResult::Invalid(a),
                TransactionExecutionResult::Invalid(b),
            ) => a == b,
            (TransactionExecutionResult::Valid(a), TransactionExecutionResult::Valid(b)) => a == b,
            _ => false,
        }
    }
}

impl vstd::std_specs::cmp::PartialEqSpecImpl for TransactionExecutionResult {
    open spec fn obeys_eq_spec() -> bool {
        true
    }

    open spec fn eq_spec(&self, other: &Self) -> bool {
        self@ == other@
    }
}

/// Mathematical model of a [`BatchExecutionResult`].
#[verifier::ext_equal]
pub struct BatchResultView {
    pub batch: crate::protocol::BatchView,
    pub results: Seq<TransactionResultView>,
}

/// The sequence of views of a list of transaction results.
pub open spec fn results_view(results: Seq<TransactionExecutionResult>) -> Seq<
    TransactionResultView,
> {
    results.map_values(|r: TransactionExecutionResult| r@)
}

/// Result of executing a batch.
#[derive(Debug, Clone, Eq, Hash)]
pub struct BatchExecutionResult {
    /// The batch which was executed.
    pub batch: crate::protocol::BatchPair,
    /// The results for each transaction in the batch.
    pub results: Vec<TransactionExecutionResult>,
}

impl View for BatchExecutionResult {
    type V = BatchResultView;

    open spec fn view(&self) -> BatchResultView {
        BatchResultView { batch: self.batch@, results: results_view(self.results@) }
    }
}

impl PartialEq for BatchExecutionResult {
    fn eq(&self, other: &Self) -> (r: bool) {
        let r = self.batch == other.batch && transaction_results_eq(&self.results, &other.results);
        proof {
            if r {
                assert(self@ =~= other@);
            } else {
                assert(self@.batch == other@.batch ==> self@.results != other@.results);
            }
        }
        r
    }
}

impl vstd::std_specs::cmp::PartialEqSpecImpl for BatchExecutionResult {
    open spec fn obeys_eq_spec() -> bool {
        true
    }

    open spec fn eq_spec(&self, other: &Self) -> bool {
        self@ == other@
    }
}

/// Compare two transaction-result lists by contents.
fn transaction_results_eq(
    a: &Vec<TransactionExecutionResult>,
    b: &Vec<TransactionExecutionResult>,
) -> (r: bool)
    ensures
        r == (results_view(a@) == results_view(b@)),
{
    if a.len() != b.len() {
        proof {
            assert(results_view(a@).len() != results_view(b@).len());
        }
        return false;
    }
    let n = a.len();
    let mut i: usize = 0;
    while i < n
        invariant
            n == a@.len() == b@.len(),
            i <= n,
            forall|j: int| 0 <= j < i ==> a@[j]@ == b@[j]@,
        decreases n - i,
    {
        if !(a[i] == b[i]) {
            proof {
                assert(results_view(a@)[i as int] != results_view(b@)[i as int]);
            }
            return false;
        }
        i += 1;
    }
    proof {
        assert(results_view(a@) =~= results_view(b@));
    }
    true
}

/// Mathematical model of an [`ExecutionTaskCompletionNotification`].
#[verifier::ext_equal]
pub enum NotificationView {
    Invalid(Seq<u8>, InvalidResultView),
    Valid(Seq<u8>, Seq<char>),
}

/// A completion message posted by an executor reporting a transaction's
/// outcome.
#[derive(Debug)]
pub enum ExecutionTaskCompletionNotification {
    /// The transaction was invalid.
    Invalid(ContextId, InvalidTransactionResult),
    /// The transaction was valid (the `String` is the transaction id).
    Valid(ContextId, String),
}

impl View for ExecutionTaskCompletionNotification {
    type V = NotificationView;

    open spec fn view(&self) -> NotificationView {
        match self {
            ExecutionTaskCompletionNotification::Invalid(context_id, res) => {
                NotificationView::Invalid(context_id@, res@)
            },
            ExecutionTaskCompletionNotification::Valid(context_id, txn_id) => {
                NotificationView::Valid(context_id@, txn_id@)
            },
        }
    }
}

impl PartialEq for ExecutionTaskCompletionNotification {
    fn eq(&self, other: &Self) -> (r: bool) {
        let r = match (self, other) {
            (
                ExecutionTaskCompletionNotification::Invalid(context_a, result_a),
                ExecutionTaskCompletionNotification::Invalid(context_b, result_b),
            ) => crate::context::context_id_eq(context_a, context_b) && result_a == result_b,
            (
                ExecutionTaskCompletionNotification::Valid(context_a, txn_a),
                ExecutionTaskCompletionNotification::Valid(context_b, txn_b),
            ) => crate::context::context_id_eq(context_a, context_b) && *txn_a == *txn_b,
            _ => false,
        };
        proof {
            if r {
                assert(self@ =~= other@);
            }
        }
        r
    }
}

impl vstd::std_specs::cmp::PartialEqSpecImpl for ExecutionTaskCompletionNotification {
    open spec fn obeys_eq_spec() -> bool {
        true
    }

    open spec fn eq_spec(&self, other: &Self) -> bool {
        self@ == other@
    }
}

/// The transaction identifier a notification reports on.
pub open spec fn notification_transaction_id(n: NotificationView) -> Seq<char> {
    match n {
        NotificationView::Invalid(_, res) => res.transaction_id,
        NotificationView::Valid(_, txn_id) => txn_id,
    }
}

/// Mathematical model of a [`SchedulerError`].
#[verifier::ext_equal]
pub enum SchedulerErrorView {
    DuplicateBatch(Seq<char>),
    Internal(Seq<char>),
    NoTaskIterator,
    SchedulerFinalized,
    UnexpectedNotification(Seq<char>),
}

/// An error surfaced by a scheduler, either as a return value or through
/// the error sink.
#[derive(Clone, Debug)]
pub enum SchedulerError {
    /// `add_batch` was called with a batch the scheduler already has
    /// pending or in progress; the contained `String` is the batch id.
    DuplicateBatch(String),
    /// An internal error occurred that the scheduler could not recover
    /// from.
    Internal(String),
    /// A scheduler only has one task iterator, so `take_task_iterator`
    /// can only be called once.
    NoTaskIterator,
    /// `add_batch` was called, but the scheduler was already finalized.
    SchedulerFinalized,
    /// A completion notification was received for a transaction the
    /// scheduler was not expecting; the contained `String` is the
    /// transaction id.
    UnexpectedNotification(String),
}

impl View for SchedulerError {
    type V = SchedulerErrorView;

    open spec fn view(&self) -> SchedulerErrorView {
        match self {
            SchedulerError::DuplicateBatch(batch_id) => {
                SchedulerErrorView::DuplicateBatch(batch_id@)
            },
            SchedulerError::Internal(msg) => SchedulerErrorView::Internal(msg@),
            SchedulerError::NoTaskIterator => SchedulerErrorView::NoTaskIterator,
            SchedulerError::SchedulerFinalized => SchedulerErrorView::SchedulerFinalized,
            SchedulerError::UnexpectedNotification(txn_id) => {
                SchedulerErrorView::UnexpectedNotification(txn_id@)
            },
        }
    }
}

/// The display text of a scheduler error.
pub open spec fn scheduler_error_message(e: SchedulerErrorView) -> Seq<char> {
    match e {
        SchedulerErrorView::DuplicateBatch(batch_id) => "duplicate batch added to scheduler: "@
            + batch_id,
        SchedulerErrorView::Internal(msg) => "scheduler encountered an internal error: "@ + msg,
        SchedulerErrorView::NoTaskIterator => "task iterator already taken"@,
        SchedulerErrorView::SchedulerFinalized => "batch added to finalized scheduler"@,
        SchedulerErrorView::UnexpectedNotification(txn_id) =>
        "scheduler received an unexpected notification: "@ + txn_id,
    }
}

impl SchedulerError {
    /// The full display text of this error.
    pub fn message(&self) -> (r: String)
        ensures
            r@ == scheduler_error_message(self@),
    {
        match self {
            SchedulerError::DuplicateBatch(batch_id) => {
                String::from_str("duplicate batch added to scheduler: ").concat(batch_id.as_str())
            },
            SchedulerError::Internal(msg) => {
                String::from_str("scheduler encountered an internal error: ").concat(msg.as_str())
            },
            SchedulerError::NoTaskIterator => String::from_str("task iterator already taken"),
            SchedulerError::SchedulerFinalized => {
                String::from_str("batch added to finalized scheduler")
            },
            SchedulerError::UnexpectedNotification(txn_id) => {
                String::from_str("scheduler received an unexpected notification: ").concat(
                    txn_id.as_str(),
                )
            },
        }
    }
}

} // verus!
