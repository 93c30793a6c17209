//! The scheduler core: the state machine that owns all scheduling
//! decisions of a serial scheduler.
//!
//! The core receives [`CoreMessage`] control events — a batch arrived, a
//! completion notification arrived, the scheduler was finalized, or it is
//! shutting down — and reacts by dispatching tasks, consolidating batch
//! results, releasing execution contexts, and emitting results and
//! errors.  Emissions are appended to outboxes (`tasks` for the task
//! channel, `results` for the result sink, `errors` for the error sink);
//! a threaded embedding forwards them as they appear.
//!
//! Every transition is specified over [`CoreView`], the mathematical
//! model of the core's state, and verified.

use vstd::prelude::*;

use crate::context::ContextId;
use crate::context::ContextLifecycle;
use crate::context::ContextManagerError;
use crate::context::cm_error_message;
use crate::protocol::BatchView;
use crate::protocol::ReceiptView;
use crate::protocol::TransactionPair;
use crate::protocol::TransactionReceipt;
use crate::scheduler::BatchExecutionResult;
use crate::scheduler::BatchResultView;
use crate::scheduler::ExecutionTask;
use crate::scheduler::ExecutionTaskCompletionNotification;
use crate::scheduler::InvalidResultView;
use crate::scheduler::InvalidTransactionResult;
use crate::scheduler::NotificationView;
use crate::scheduler::SchedulerError;
use crate::scheduler::SchedulerErrorView;
use crate::scheduler::TaskView;
use crate::scheduler::TransactionExecutionResult;
use crate::scheduler::TransactionResultView;
use crate::scheduler::notification_transaction_id;
use crate::shared::BatchExecution;
use crate::shared::ExecutionView;
use crate::shared::Shared;
use crate::shared::SharedView;
use crate::shared::contexts_view;

verus! {

/// A control event delivered to the scheduler core.
#[derive(Debug)]
pub enum CoreMessage {
    /// An unscheduled batch is available.
    BatchAdded,
    /// An executor reported the outcome of a dispatched transaction.
    ExecutionResult(ExecutionTaskCompletionNotification),
    /// The scheduler has been finalized; no more batches will arrive.
    Finalized,
    /// The scheduler is shutting down.
    Shutdown,
}

/// The sequence of views of a list of execution tasks.
pub open spec fn tasks_view(tasks: Seq<ExecutionTask>) -> Seq<TaskView> {
    tasks.map_values(|t: ExecutionTask| t@)
}

/// The view of one emitted result-sink value.
pub open spec fn opt_result_view(result: Option<BatchExecutionResult>) -> Option<BatchResultView> {
    match result {
        Some(r) => Some(r@),
        None => None,
    }
}

/// The sequence of views of the emitted result-sink values.
pub open spec fn emitted_results_view(results: Seq<Option<BatchExecutionResult>>) -> Seq<
    Option<BatchResultView>,
> {
    results.map_values(|r: Option<BatchExecutionResult>| opt_result_view(r))
}

/// The sequence of views of the emitted errors.
pub open spec fn errors_view(errors: Seq<SchedulerError>) -> Seq<SchedulerErrorView> {
    errors.map_values(|e: SchedulerError| e@)
}

/// One context creation as the core requested it: the dependency list
/// and state identifier handed to `create_context`, and the identifier
/// it returned.
#[verifier::ext_equal]
pub struct ContextRequestView {
    pub dependent_contexts: Seq<Seq<u8>>,
    pub state_id: Seq<char>,
    pub context_id: Seq<u8>,
}

/// The identifiers returned by a sequence of context creations.
pub open spec fn created_ids(created: Seq<ContextRequestView>) -> Seq<Seq<u8>> {
    created.map_values(|r: ContextRequestView| r.context_id)
}

/// Mathematical model of a [`SchedulerCore`].
///
/// `tasks` is the content of the task channel (sent, not yet pulled);
/// `task_history` is every task ever sent, in order.  `results` and
/// `errors` are everything ever emitted to the result and error sinks.
/// `created` records every context creation the core requested from its
/// [`ContextLifecycle`], with the arguments it passed; `dropped`
/// records, in order, the identifier of every context it released.
#[verifier::ext_equal]
pub struct CoreView {
    pub shared: SharedView,
    pub state_id: Seq<char>,
    pub task_channel_open: bool,
    pub tasks: Seq<TaskView>,
    pub task_history: Seq<TaskView>,
    pub results: Seq<Option<BatchResultView>>,
    pub errors: Seq<SchedulerErrorView>,
    pub sentinel_sent: bool,
    pub created: Seq<ContextRequestView>,
    pub dropped: Seq<Seq<u8>>,
}

/// An invalid entry with empty diagnostics for a transaction, used when
/// a whole batch is invalidated.
pub open spec fn empty_invalid_result(txn: crate::protocol::TransactionView) -> InvalidResultView {
    InvalidResultView {
        transaction_id: txn.header_signature,
        error_message: Seq::<char>::empty(),
        error_data: Seq::<u8>::empty(),
    }
}

/// The result list reported for a batch whose transaction at
/// `fail_index` was reported invalid with `failure`: every transaction
/// of the batch is reported invalid, the failing one with the reported
/// diagnostics, the others with empty diagnostics and their own
/// identifiers.
pub open spec fn invalid_batch_results(
    b: BatchView,
    fail_index: int,
    failure: InvalidResultView,
) -> Seq<TransactionResultView> {
    Seq::new(
        b.transactions.len(),
        |i: int|
            if i == fail_index {
                TransactionResultView::Invalid(failure)
            } else {
                TransactionResultView::Invalid(empty_invalid_result(b.transactions[i]))
            },
    )
}

/// The result emitted for a batch with no transactions, which completes
/// the moment it is activated: every transaction in it (namely none) has
/// completed.
pub open spec fn empty_batch_result(b: BatchView) -> BatchResultView {
    BatchResultView { batch: b, results: Seq::<TransactionResultView>::empty() }
}

/// The index of the first batch in the queue with at least one
/// transaction, or the queue's length if there is none.
pub open spec fn first_ready(queue: Seq<BatchView>) -> int
    decreases queue.len(),
{
    if queue.len() == 0 {
        0
    } else if queue[0].transactions.len() > 0 {
        0
    } else {
        1 + first_ready(queue.drop_first())
    }
}

/// The results emitted for the first `k` batches of the queue, each of
/// which has no transactions.
pub open spec fn drained_empty_results(queue: Seq<BatchView>, k: int) -> Seq<
    Option<BatchResultView>,
> {
    Seq::new(k as nat, |i: int| Some(empty_batch_result(queue[i])))
}

pub proof fn lemma_first_ready(queue: Seq<BatchView>)
    ensures
        0 <= first_ready(queue) <= queue.len(),
        forall|i: int|
            0 <= i < first_ready(queue) ==> (#[trigger] queue[i]).transactions.len() == 0,
        first_ready(queue) < queue.len() ==> queue[first_ready(queue)].transactions.len() > 0,
    decreases queue.len(),
{
    if queue.len() == 0 {
    } else if queue[0].transactions.len() > 0 {
    } else {
        lemma_first_ready(queue.drop_first());
        assert forall|i: int| 0 <= i < first_ready(queue) implies (#[trigger] queue[i])
            .transactions.len() == 0 by {
            if i > 0 {
                assert(queue.drop_first()[i - 1] == queue[i]);
            }
        }
        if first_ready(queue) < queue.len() {
            assert(queue.drop_first()[first_ready(queue) - 1] == queue[first_ready(queue)]);
        }
    }
}

/// A freshly activated execution of batch `b`: its first transaction has
/// just been dispatched with a newly created context.
pub open spec fn activated_execution(c: ExecutionView, b: BatchView) -> bool {
    &&& c.batch == b
    &&& c.next_index == 1
    &&& c.accumulated == Seq::<TransactionResultView>::empty()
    &&& c.previous_context_id is None
    &&& c.dispatched_transaction_id == Some(b.transactions[0].header_signature)
    &&& c.contexts.len() == 1
}

/// Relates the state at the moment the current-batch slot became empty
/// (`mid`) to the state after the core has activated the next
/// unscheduled batch with at least one transaction — emitting an empty
/// result for every empty batch it passed over — and, when no work
/// remains and the scheduler is finalized, emitted the terminal sentinel
/// exactly once.
pub open spec fn activation_post(mid: CoreView, post: CoreView) -> bool {
    let q = mid.shared.unscheduled;
    let k = first_ready(q);
    let results1 = mid.results + drained_empty_results(q, k);
    if k == q.len() {
        if mid.shared.finalized && !mid.sentinel_sent {
            post == (CoreView {
                shared: SharedView {
                    unscheduled: Seq::<BatchView>::empty(),
                    current: None,
                    ..mid.shared
                },
                results: results1.push(None),
                sentinel_sent: true,
                ..mid
            })
        } else {
            post == (CoreView {
                shared: SharedView {
                    unscheduled: Seq::<BatchView>::empty(),
                    current: None,
                    ..mid.shared
                },
                results: results1,
                ..mid
            })
        }
    } else {
        let b = q[k];
        &&& post.shared.current matches Some(c) && activated_execution(c, b)
        &&& post.shared.unscheduled == q.skip(k + 1)
        &&& post.shared.finalized == mid.shared.finalized
        &&& post.results == results1
        &&& post.tasks == mid.tasks.push(
            TaskView { pair: b.transactions[0], context_id: post.shared.current->0.contexts[0] },
        )
        &&& post.task_history == mid.task_history.push(
            TaskView { pair: b.transactions[0], context_id: post.shared.current->0.contexts[0] },
        )
        &&& post.created == mid.created.push(
            ContextRequestView {
                dependent_contexts: Seq::<Seq<u8>>::empty(),
                state_id: mid.state_id,
                context_id: post.shared.current->0.contexts[0],
            },
        )
        &&& post.dropped == mid.dropped
        &&& post.errors == mid.errors
        &&& post.sentinel_sent == mid.sentinel_sent
        &&& post.task_channel_open == mid.task_channel_open
        &&& post.state_id == mid.state_id
    }
}

/// Whether the core is awaiting a completion for the transaction with
/// the given identifier.
pub open spec fn awaiting(v: CoreView, txn_id: Seq<char>) -> bool {
    v.shared.current matches Some(c) && c.dispatched_transaction_id == Some(txn_id)
}

/// An unexpected notification only surfaces through the error sink.
pub open spec fn unexpected_post(pre: CoreView, post: CoreView, txn_id: Seq<char>) -> bool {
    post == (CoreView {
        errors: pre.errors.push(SchedulerErrorView::UnexpectedNotification(txn_id)),
        ..pre
    })
}

/// A matched valid completion whose receipt could not be built: the
/// failure surfaces through the error sink and the core's state is
/// otherwise unchanged.
pub open spec fn receipt_failed_post(pre: CoreView, post: CoreView, msg: Seq<char>) -> bool {
    post == (CoreView { errors: pre.errors.push(SchedulerErrorView::Internal(msg)), ..pre })
}

/// A matched valid completion whose receipt was built: the receipt is
/// accumulated and either the batch's next transaction is dispatched
/// with a context depending on the just-used one, or — when the receipt
/// was for the batch's last transaction — the batch result is emitted,
/// every context of the batch is released, and the next batch, if any,
/// is activated.
pub open spec fn valid_ok_post(
    pre: CoreView,
    post: CoreView,
    ctx: Seq<u8>,
    receipt: ReceiptView,
) -> bool {
    let c = pre.shared.current->0;
    let acc = c.accumulated.push(TransactionResultView::Valid(receipt));
    if c.next_index < c.batch.transactions.len() {
        let txn = c.batch.transactions[c.next_index];
        &&& post.shared.current matches Some(c2) && {
            &&& c2.batch == c.batch
            &&& c2.next_index == c.next_index + 1
            &&& c2.accumulated == acc
            &&& c2.previous_context_id == Some(ctx)
            &&& c2.dispatched_transaction_id == Some(txn.header_signature)
            &&& c2.contexts.len() == c.contexts.len() + 1
            &&& c2.contexts.drop_last() == c.contexts
        }
        &&& post.shared.unscheduled == pre.shared.unscheduled
        &&& post.shared.finalized == pre.shared.finalized
        &&& post.tasks == pre.tasks.push(
            TaskView { pair: txn, context_id: post.shared.current->0.contexts.last() },
        )
        &&& post.task_history == pre.task_history.push(
            TaskView { pair: txn, context_id: post.shared.current->0.contexts.last() },
        )
        &&& post.created == pre.created.push(
            ContextRequestView {
                dependent_contexts: Seq::<Seq<u8>>::empty().push(ctx),
                state_id: pre.state_id,
                context_id: post.shared.current->0.contexts.last(),
            },
        )
        &&& post.dropped == pre.dropped
        &&& post.results == pre.results
        &&& post.errors == pre.errors
        &&& post.sentinel_sent == pre.sentinel_sent
        &&& post.task_channel_open == pre.task_channel_open
        &&& post.state_id == pre.state_id
    } else {
        activation_post(
            CoreView {
                shared: SharedView { current: None, ..pre.shared },
                results: pre.results.push(
                    Some(BatchResultView { batch: c.batch, results: acc }),
                ),
                dropped: pre.dropped + c.contexts,
                ..pre
            },
            post,
        )
    }
}

/// A matched invalid completion: the whole batch is reported invalid,
/// every context of the batch is released, and the next batch, if any,
/// is activated.
pub open spec fn invalid_post(pre: CoreView, post: CoreView, failure: InvalidResultView) -> bool {
    let c = pre.shared.current->0;
    activation_post(
        CoreView {
            shared: SharedView { current: None, ..pre.shared },
            results: pre.results.push(
                Some(
                    BatchResultView {
                        batch: c.batch,
                        results: invalid_batch_results(c.batch, c.next_index - 1, failure),
                    },
                ),
            ),
            dropped: pre.dropped + c.contexts,
            ..pre
        },
        post,
    )
}

/// What ingesting a completion notification does, for every possible
/// outcome of the receipt request.
/// The two outcomes a matched valid completion can have, depending on
/// whether the receipt could be built.
pub open spec fn valid_notification_outcomes(
    pre: CoreView,
    post: CoreView,
    ctx: Seq<u8>,
    txn_id: Seq<char>,
) -> bool {
    ||| exists|receipt: ReceiptView|
        #[trigger] valid_ok_post(pre, post, ctx, receipt) && receipt.transaction_id == txn_id
    ||| exists|msg: Seq<char>| receipt_failed_post(pre, post, msg)
}

pub open spec fn notification_post(pre: CoreView, post: CoreView, n: NotificationView) -> bool {
    let txn_id = notification_transaction_id(n);
    &&& (!awaiting(pre, txn_id) ==> unexpected_post(pre, post, txn_id))
    &&& (awaiting(pre, txn_id) ==> match n {
        NotificationView::Valid(ctx, _) => valid_notification_outcomes(pre, post, ctx, txn_id),
        NotificationView::Invalid(_, failure) => invalid_post(pre, post, failure),
    })
}

/// A valid notification's ingestion meets the notification contract.
pub proof fn lemma_notification_post_valid(
    pre: CoreView,
    post: CoreView,
    ctx: Seq<u8>,
    txn_id: Seq<char>,
)
    requires
        awaiting(pre, txn_id),
        valid_notification_outcomes(pre, post, ctx, txn_id),
    ensures
        notification_post(pre, post, NotificationView::Valid(ctx, txn_id)),
{
    assert(notification_transaction_id(NotificationView::Valid(ctx, txn_id)) == txn_id);
}

/// An invalid notification's ingestion meets the notification contract.
pub proof fn lemma_notification_post_invalid(
    pre: CoreView,
    post: CoreView,
    ctx: Seq<u8>,
    failure: InvalidResultView,
)
    requires
        awaiting(pre, failure.transaction_id),
        invalid_post(pre, post, failure),
    ensures
        notification_post(pre, post, NotificationView::Invalid(ctx, failure)),
{
    assert(notification_transaction_id(NotificationView::Invalid(ctx, failure))
        == failure.transaction_id);
}

/// An unmatched notification's ingestion meets the notification
/// contract.
pub proof fn lemma_notification_post_unexpected(pre: CoreView, post: CoreView, n: NotificationView)
    requires
        !awaiting(pre, notification_transaction_id(n)),
        unexpected_post(pre, post, notification_transaction_id(n)),
    ensures
        notification_post(pre, post, n),
{
}

/// What the `Finalized` control event does: once the scheduler is
/// finalized and no work remains, the terminal sentinel is emitted, and
/// only once.
pub open spec fn finalized_post(pre: CoreView, post: CoreView) -> bool {
    if pre.shared.finalized && pre.shared.current is None && pre.shared.unscheduled.len() == 0
        && !pre.sentinel_sent {
        post == (CoreView { results: pre.results.push(None), sentinel_sent: true, ..pre })
    } else {
        post == pre
    }
}

/// What the `BatchAdded` control event does: activate work if the
/// current-batch slot is empty.  A core that has shut down no longer
/// reacts.
pub open spec fn batch_added_post(pre: CoreView, post: CoreView) -> bool {
    if pre.shared.current is Some || !pre.task_channel_open {
        post == pre
    } else {
        activation_post(pre, post)
    }
}

/// What the `Shutdown` control event does: close the task channel,
/// abandon the batch in progress without synthesizing a result, and
/// release its live contexts — after which every context ever created
/// has been released.
pub open spec fn shutdown_post(pre: CoreView, post: CoreView) -> bool {
    post == (CoreView {
        shared: SharedView { current: None, ..pre.shared },
        task_channel_open: false,
        dropped: pre.dropped + live_contexts(pre),
        ..pre
    })
}

/// Structural invariant of an in-progress batch execution: at least one
/// and at most all of its transactions have been dispatched, in order;
/// exactly the one dispatched last is unacknowledged; the accumulated
/// results are valid receipts for the acknowledged prefix, in order; and
/// one context was created per dispatched transaction.
pub open spec fn execution_inv(c: ExecutionView) -> bool {
    &&& 1 <= c.next_index <= c.batch.transactions.len()
    &&& c.dispatched_transaction_id == Some(
        c.batch.transactions[c.next_index - 1].header_signature,
    )
    &&& c.accumulated.len() == c.next_index - 1
    &&& forall|i: int|
        0 <= i < c.accumulated.len() ==> ((#[trigger] c.accumulated[i]) matches
            TransactionResultView::Valid(r) && r.transaction_id
            == c.batch.transactions[i].header_signature)
    &&& c.contexts.len() == c.next_index
}

/// The contexts of the batch in progress, or none.
pub open spec fn live_contexts(v: CoreView) -> Seq<Seq<u8>> {
    match v.shared.current {
        Some(c) => c.contexts,
        None => Seq::<Seq<u8>>::empty(),
    }
}

/// The tasks dispatched so far for the execution `c`: its batch's first
/// `next_index` transactions in submission order, each paired with the
/// context created for it.
pub open spec fn current_batch_tasks(c: ExecutionView) -> Seq<TaskView> {
    Seq::new(
        c.next_index as nat,
        |i: int| TaskView { pair: c.batch.transactions[i], context_id: c.contexts[i] },
    )
}

/// Invariant of the scheduler core.
///
/// Beyond the structure of the batch in progress, it states: no two
/// tracked batches share a header signature; every context ever created
/// is either already released or belongs to the batch in progress, and
/// releases happen in creation order; the terminal sentinel is emitted
/// at most once, only as the last emitted result, and only on a
/// finalized, drained scheduler; the pending task channel is a suffix
/// of the task history; and the most recent tasks in the history are
/// exactly the dispatched prefix of the batch in progress.
pub open spec fn core_inv(v: CoreView) -> bool {
    &&& v.shared.current matches Some(c) ==> execution_inv(c)
    &&& !v.task_channel_open ==> v.shared.current is None
    &&& crate::shared::unique_signatures(v.shared)
    &&& created_ids(v.created) == v.dropped + live_contexts(v)
    &&& v.sentinel_sent ==> v.shared.finalized && v.shared.current is None
        && v.shared.unscheduled.len() == 0
    &&& v.sentinel_sent ==> v.results.len() > 0
    &&& forall|i: int|
        0 <= i < v.results.len() ==> ((#[trigger] v.results[i]) is None <==> (v.sentinel_sent && i
            == v.results.len() - 1))
    &&& v.tasks.len() <= v.task_history.len()
    &&& v.tasks == v.task_history.skip(v.task_history.len() - v.tasks.len())
    &&& v.shared.current matches Some(c) ==> c.next_index <= v.task_history.len()
        && v.task_history.skip(v.task_history.len() - c.next_index) == current_batch_tasks(c)
}

/// The serial scheduler activates eagerly: while the core is running
/// and no batch is in progress, the unscheduled queue is empty.  (After
/// shutdown nothing activates the queue any more.)
pub open spec fn core_idle_inv(v: CoreView) -> bool {
    v.task_channel_open && v.shared.current is None ==> v.shared.unscheduled.len() == 0
}

/// The state of a freshly constructed core.
pub open spec fn initial_core_view(state_id: Seq<char>) -> CoreView {
    CoreView {
        shared: SharedView {
            unscheduled: Seq::<BatchView>::empty(),
            current: None,
            finalized: false,
        },
        state_id: state_id,
        task_channel_open: true,
        tasks: Seq::<TaskView>::empty(),
        task_history: Seq::<TaskView>::empty(),
        results: Seq::<Option<BatchResultView>>::empty(),
        errors: Seq::<SchedulerErrorView>::empty(),
        sentinel_sent: false,
        created: Seq::<ContextRequestView>::empty(),
        dropped: Seq::<Seq<u8>>::empty(),
    }
}

pub proof fn lemma_emitted_push(
    results: Seq<Option<BatchExecutionResult>>,
    x: Option<BatchExecutionResult>,
)
    ensures
        emitted_results_view(results.push(x)) == emitted_results_view(results).push(
            opt_result_view(x),
        ),
{
    assert(emitted_results_view(results.push(x)) =~= emitted_results_view(results).push(
        opt_result_view(x),
    ));
}

pub proof fn lemma_errors_push(errors: Seq<SchedulerError>, e: SchedulerError)
    ensures
        errors_view(errors.push(e)) == errors_view(errors).push(e@),
{
    assert(errors_view(errors.push(e)) =~= errors_view(errors).push(e@));
}

pub proof fn lemma_tasks_push(tasks: Seq<ExecutionTask>, t: ExecutionTask)
    ensures
        tasks_view(tasks.push(t)) == tasks_view(tasks).push(t@),
{
    assert(tasks_view(tasks.push(t)) =~= tasks_view(tasks).push(t@));
}

/// Pushing the same element onto a sequence and onto one of its
/// suffixes leaves the latter a suffix of the former.
pub proof fn lemma_push_suffix(h: Seq<TaskView>, s: Seq<TaskView>, t: TaskView)
    requires
        s.len() <= h.len(),
        s == h.skip(h.len() - s.len()),
    ensures
        s.push(t) == h.push(t).skip(h.len() + 1 - (s.len() + 1)),
{
    assert(s.push(t) =~= h.push(t).skip(h.len() + 1 - (s.len() + 1)));
}

/// Emitting the empty result for an empty batch at the head of the
/// queue and then activating from the rest is one activation from the
/// original queue.
pub proof fn lemma_activation_step(pre: CoreView, mid: CoreView, post: CoreView)
    requires
        pre.shared.current is None,
        pre.shared.unscheduled.len() > 0,
        pre.shared.unscheduled[0].transactions.len() == 0,
        mid == (CoreView {
            shared: SharedView {
                unscheduled: pre.shared.unscheduled.drop_first(),
                ..pre.shared
            },
            results: pre.results.push(Some(empty_batch_result(pre.shared.unscheduled[0]))),
            ..pre
        }),
        activation_post(mid, post),
    ensures
        activation_post(pre, post),
{
    let q = pre.shared.unscheduled;
    let q1 = q.drop_first();
    let k = first_ready(q);
    let k1 = first_ready(q1);
    assert(k == 1 + k1);
    lemma_first_ready(q);
    lemma_first_ready(q1);
    assert(mid.results + drained_empty_results(q1, k1) =~= pre.results + drained_empty_results(
        q,
        k,
    )) by {
        assert forall|i: int|
            0 <= i < (pre.results + drained_empty_results(q, k)).len() implies (mid.results
            + drained_empty_results(q1, k1))[i] == (pre.results + drained_empty_results(q, k))[i]
        by {
            if i < pre.results.len() {
            } else if i == pre.results.len() {
                assert((pre.results + drained_empty_results(q, k))[i] == Some(
                    empty_batch_result(q[0]),
                ));
            } else {
                let j = i - pre.results.len() - 1;
                assert(drained_empty_results(q1, k1)[j] == Some(empty_batch_result(q1[j])));
                assert(drained_empty_results(q, k)[j + 1] == Some(empty_batch_result(q[j + 1])));
                assert(q1[j] == q[j + 1]);
            }
        }
    }
    if k1 == q1.len() {
        assert(k == q.len());
        if mid.shared.finalized && !mid.sentinel_sent {
            assert(post =~= (CoreView {
                shared: SharedView {
                    unscheduled: Seq::<BatchView>::empty(),
                    current: None,
                    ..pre.shared
                },
                results: (pre.results + drained_empty_results(q, k)).push(None),
                sentinel_sent: true,
                ..pre
            }));
        } else {
            assert(post =~= (CoreView {
                shared: SharedView {
                    unscheduled: Seq::<BatchView>::empty(),
                    current: None,
                    ..pre.shared
                },
                results: pre.results + drained_empty_results(q, k),
                ..pre
            }));
        }
    } else {
        assert(k < q.len());
        assert(q1[k1] == q[k]);
        assert(q1.skip(k1 + 1) =~= q.skip(k + 1));
    }
}

/// Activation preserves the core invariant and restores eagerness.
pub proof fn lemma_activation_inv(mid: CoreView, post: CoreView)
    requires
        core_inv(mid),
        mid.task_channel_open,
        mid.shared.current is None,
        activation_post(mid, post),
    ensures
        core_inv(post),
        core_idle_inv(post),
{
    let q = mid.shared.unscheduled;
    let k = first_ready(q);
    lemma_first_ready(q);
    assert(created_ids(mid.created) =~= mid.dropped) by {
        assert(created_ids(mid.created) == mid.dropped + live_contexts(mid));
        assert(mid.dropped + Seq::<Seq<u8>>::empty() =~= mid.dropped);
    }
    if k == q.len() {
        if mid.shared.finalized && !mid.sentinel_sent {
            let results1 = mid.results + drained_empty_results(q, k);
            assert forall|i: int| 0 <= i < post.results.len() implies ((
            #[trigger] post.results[i]) is None <==> (post.sentinel_sent && i == post.results.len()
                - 1)) by {
                if i < mid.results.len() {
                    assert(mid.results[i] == post.results[i]);
                } else if i < results1.len() {
                    assert(post.results[i] == drained_empty_results(q, k)[i - mid.results.len()]);
                }
            }
            assert(created_ids(post.created) == post.dropped + live_contexts(post));
        } else {
            assert forall|i: int| 0 <= i < post.results.len() implies ((
            #[trigger] post.results[i]) is None <==> (post.sentinel_sent && i == post.results.len()
                - 1)) by {
                if i < mid.results.len() {
                    assert(mid.results[i] == post.results[i]);
                } else {
                    assert(post.results[i] == drained_empty_results(q, k)[i - mid.results.len()]);
                    assert(mid.sentinel_sent ==> q.len() == 0);
                }
            }
            assert(created_ids(post.created) == post.dropped + live_contexts(post));
        }
    } else {
        let b = q[k];
        let c2 = post.shared.current->0;
        let ctx0 = c2.contexts[0];
        let t = TaskView { pair: b.transactions[0], context_id: ctx0 };
        assert(execution_inv(c2));
        assert(mid.sentinel_sent ==> q.len() == 0);
        assert(!post.sentinel_sent);
        assert forall|i: int| 0 <= i < post.results.len() implies ((#[trigger] post.results[i])
            is None <==> (post.sentinel_sent && i == post.results.len() - 1)) by {
            if i < mid.results.len() {
                assert(mid.results[i] == post.results[i]);
            } else {
                assert(post.results[i] == drained_empty_results(q, k)[i - mid.results.len()]);
            }
        }
        assert(created_ids(post.created) == post.dropped + live_contexts(post)) by {
            assert(c2.contexts =~= Seq::<Seq<u8>>::empty().push(ctx0));
            assert(created_ids(post.created) =~= created_ids(mid.created).push(ctx0));
            assert(created_ids(post.created) =~= mid.dropped + c2.contexts);
        }
        assert(crate::shared::unique_signatures(post.shared)) by {
            assert forall|i: int, j: int|
                0 <= i < post.shared.unscheduled.len() && 0 <= j
                    < post.shared.unscheduled.len() && i != j implies (
            #[trigger] post.shared.unscheduled[i]).header_signature != (
            #[trigger] post.shared.unscheduled[j]).header_signature by {
                assert(post.shared.unscheduled[i] == q[k + 1 + i]);
                assert(post.shared.unscheduled[j] == q[k + 1 + j]);
            }
            assert forall|i: int| 0 <= i < post.shared.unscheduled.len() implies (
            #[trigger] post.shared.unscheduled[i]).header_signature
                != c2.batch.header_signature by {
                assert(post.shared.unscheduled[i] == q[k + 1 + i]);
                assert(q[k + 1 + i].header_signature != q[k].header_signature);
            }
        }
        lemma_push_suffix(mid.task_history, mid.tasks, t);
        assert(post.task_history.skip(post.task_history.len() - c2.next_index)
            =~= current_batch_tasks(c2)) by {
            assert(post.task_history.skip(post.task_history.len() - 1) =~= Seq::<
                TaskView,
            >::empty().push(t));
            assert(current_batch_tasks(c2) =~= Seq::<TaskView>::empty().push(t));
        }
    }
}

/// The state machine of a serial scheduler.
///
/// Owns the [`Shared`] record, the [`ContextLifecycle`] collaborator,
/// and the outboxes through which tasks, results and errors leave the
/// core.
pub struct SchedulerCore<C: ContextLifecycle> {
    /// The shared state record.
    pub shared: Shared,
    /// The collaborator that creates and releases execution contexts.
    pub context_lifecycle: C,
    /// The state identifier handed to `create_context`.
    pub state_id: String,
    /// Tasks sent on the task channel and not yet pulled.
    pub task_queue: Vec<ExecutionTask>,
    /// Whether the core is still running: set false by `Shutdown`,
    /// which closes the task channel and stops the intake of control
    /// events.
    pub task_channel_open: bool,
    /// Everything emitted to the result sink, in order.
    pub results: Vec<Option<BatchExecutionResult>>,
    /// Everything emitted to the error sink, in order.
    pub errors: Vec<SchedulerError>,
    /// Whether the terminal sentinel has been emitted.
    pub sentinel_sent: bool,
    /// Every context creation requested from the lifecycle, in order,
    /// with the arguments passed.
    pub created: Ghost<Seq<ContextRequestView>>,
    /// Every context identifier released to the lifecycle, in order.
    pub dropped: Ghost<Seq<Seq<u8>>>,
    /// Every task ever sent on the task channel, in order.
    pub task_history: Ghost<Seq<TaskView>>,
}

impl<C: ContextLifecycle> View for SchedulerCore<C> {
    type V = CoreView;

    open spec fn view(&self) -> CoreView {
        CoreView {
            shared: self.shared@,
            state_id: self.state_id@,
            task_channel_open: self.task_channel_open,
            tasks: tasks_view(self.task_queue@),
            task_history: self.task_history@,
            results: emitted_results_view(self.results@),
            errors: errors_view(self.errors@),
            sentinel_sent: self.sentinel_sent,
            created: self.created@,
            dropped: self.dropped@,
        }
    }
}

impl<C: ContextLifecycle> SchedulerCore<C> {
    /// A fresh core around the given context lifecycle, scheduling
    /// against the state identified by `state_id`.
    pub fn new(context_lifecycle: C, state_id: String) -> (core: Self)
        ensures
            core@ == initial_core_view(state_id@),
            core_inv(core@),
            core_idle_inv(core@),
    {
        let core = SchedulerCore {
            shared: Shared::new(),
            context_lifecycle,
            state_id,
            task_queue: Vec::new(),
            task_channel_open: true,
            results: Vec::new(),
            errors: Vec::new(),
            sentinel_sent: false,
            created: Ghost(Seq::<ContextRequestView>::empty()),
            dropped: Ghost(Seq::<Seq<u8>>::empty()),
            task_history: Ghost(Seq::<TaskView>::empty()),
        };
        proof {
            assert(tasks_view(Seq::<ExecutionTask>::empty()) =~= Seq::<TaskView>::empty());
            assert(emitted_results_view(Seq::<Option<BatchExecutionResult>>::empty())
                =~= Seq::<Option<BatchResultView>>::empty());
            assert(errors_view(Seq::<SchedulerError>::empty())
                =~= Seq::<SchedulerErrorView>::empty());
            assert(core@ =~= initial_core_view(core.state_id@));
            assert(created_ids(core@.created) =~= core@.dropped + live_contexts(core@));
            assert(core@.tasks =~= core@.task_history.skip(0));
        }
        core
    }

    /// Dequeue unscheduled batches until one with at least one
    /// transaction is found and dispatch its first transaction; emit an
    /// empty result for every empty batch passed over; when the queue
    /// runs dry on a finalized scheduler, emit the terminal sentinel.
    fn try_activate_next(&mut self)
        requires
            core_inv(old(self)@),
            old(self)@.task_channel_open,
            old(self)@.shared.current is None,
        ensures
            activation_post(old(self)@, final(self)@),
            core_inv(final(self)@),
            core_idle_inv(final(self)@),
        decreases old(self).shared.unscheduled@.len(),
    {
        let ghost orig = self@;
        let front = self.shared.pop_front_unscheduled();
        match front {
            None => {
                proof {
                    assert(first_ready(orig.shared.unscheduled) == 0);
                    assert(drained_empty_results(orig.shared.unscheduled, 0) =~= Seq::<
                        Option<BatchResultView>,
                    >::empty());
                    assert(orig.results + drained_empty_results(orig.shared.unscheduled, 0)
                        =~= orig.results);
                }
                if self.shared.finalized() && !self.sentinel_sent {
                    self.results.push(None);
                    self.sentinel_sent = true;
                    proof {
                        lemma_emitted_push(old(self).results@, None);
                        assert(self@ =~= (CoreView {
                            shared: SharedView {
                                unscheduled: Seq::<BatchView>::empty(),
                                current: None,
                                ..orig.shared
                            },
                            results: (orig.results + drained_empty_results(
                                orig.shared.unscheduled,
                                0,
                            )).push(None),
                            sentinel_sent: true,
                            ..orig
                        }));
                        lemma_activation_inv(orig, self@);
                    }
                } else {
                    proof {
                        assert(self@ =~= (CoreView {
                            shared: SharedView {
                                unscheduled: Seq::<BatchView>::empty(),
                                current: None,
                                ..orig.shared
                            },
                            results: orig.results + drained_empty_results(
                                orig.shared.unscheduled,
                                0,
                            ),
                            ..orig
                        }));
                        lemma_activation_inv(orig, self@);
                    }
                }
            },
            Some(batch) => {
                let ghost b_v = batch@;
                let txn_count = batch.batch().transactions().len();
                if txn_count == 0 {
                    let result = BatchExecutionResult { batch, results: Vec::new() };
                    let ghost result_g = result;
                    self.results.push(Some(result));
                    proof {
                        lemma_emitted_push(old(self).results@, Some(result_g));
                        assert(crate::scheduler::results_view(
                            Seq::<TransactionExecutionResult>::empty(),
                        ) =~= Seq::<TransactionResultView>::empty());
                        assert(self@ =~= (CoreView {
                            shared: SharedView {
                                unscheduled: orig.shared.unscheduled.drop_first(),
                                ..orig.shared
                            },
                            results: orig.results.push(Some(empty_batch_result(b_v))),
                            ..orig
                        }));
                        assert(core_inv(self@)) by {
                            assert(orig.sentinel_sent ==> orig.shared.unscheduled.len() == 0);
                            assert(crate::shared::unique_signatures(self@.shared)) by {
                                assert forall|i: int, j: int|
                                    0 <= i < self@.shared.unscheduled.len() && 0 <= j
                                        < self@.shared.unscheduled.len() && i != j implies (
                                #[trigger] self@.shared.unscheduled[i]).header_signature != (
                                #[trigger] self@.shared.unscheduled[j]).header_signature by {
                                    assert(self@.shared.unscheduled[i]
                                        == orig.shared.unscheduled[i + 1]);
                                    assert(self@.shared.unscheduled[j]
                                        == orig.shared.unscheduled[j + 1]);
                                }
                            }
                            assert forall|i: int| 0 <= i < self@.results.len() implies ((
                            #[trigger] self@.results[i]) is None <==> (self@.sentinel_sent && i
                                == self@.results.len() - 1)) by {
                                if i < orig.results.len() {
                                    assert(orig.results[i] == self@.results[i]);
                                }
                            }
                            assert(created_ids(self@.created) == self@.dropped + live_contexts(
                                self@,
                            ));
                        }
                    }
                    let ghost mid = self@;
                    proof {
                        assert(crate::shared::batches_view(self.shared.unscheduled@).len()
                            == self.shared.unscheduled@.len());
                        assert(self.shared.unscheduled@.len() < old(
                            self,
                        ).shared.unscheduled@.len());
                    }
                    self.try_activate_next();
                    proof {
                        lemma_activation_step(orig, mid, self@);
                    }
                } else {
                    let txns = batch.batch().transactions();
                    proof {
                        assert(crate::protocol::transactions_view(txns@).len() == txns@.len());
                    }
                    let first_txn = txns[0].duplicate();
                    let ghost txn_v = first_txn@;
                    let deps: Vec<ContextId> = Vec::new();
                    let context_id = self.context_lifecycle.create_context(
                        deps.as_slice(),
                        self.state_id.as_str(),
                    );
                    let sig = first_txn.header_signature_string().clone();
                    let task = ExecutionTask::new(TransactionPair::new(first_txn), context_id);
                    let ghost task_v = task@;
                    self.task_queue.push(task);
                    let mut contexts: Vec<ContextId> = Vec::new();
                    contexts.push(context_id);
                    let execution = BatchExecution {
                        batch,
                        next_index: 1,
                        accumulated: Vec::new(),
                        previous_context_id: None,
                        dispatched_transaction_id: Some(sig),
                        contexts,
                    };
                    proof {
                        assert(execution@.contexts =~= Seq::<Seq<u8>>::empty().push(
                            context_id@,
                        ));
                        assert(execution@.accumulated =~= Seq::<TransactionResultView>::empty());
                    }
                    self.shared.put_current(execution);
                    self.created = Ghost(self.created@.push(
                        ContextRequestView {
                            dependent_contexts: contexts_view(deps@),
                            state_id: self.state_id@,
                            context_id: context_id@,
                        },
                    ));
                    self.task_history = Ghost(self.task_history@.push(task_v));
                    proof {
                        assert(contexts_view(deps@) =~= Seq::<Seq<u8>>::empty());
                    }
                    proof {
                        lemma_tasks_push(old(self).task_queue@, task);
                        assert(first_ready(orig.shared.unscheduled) == 0);
                        assert(drained_empty_results(orig.shared.unscheduled, 0) =~= Seq::<
                            Option<BatchResultView>,
                        >::empty());
                        assert(orig.results + drained_empty_results(orig.shared.unscheduled, 0)
                            =~= orig.results);
                        assert(orig.shared.unscheduled.drop_first() =~= orig.shared.unscheduled
                            .skip(1));
                        assert(task_v == (TaskView {
                            pair: b_v.transactions[0],
                            context_id: self@.shared.current->0.contexts[0],
                        }));
                        assert(activation_post(orig, self@));
                        lemma_activation_inv(orig, self@);
                    }
                }
            },
        }
    }

    /// Release every context in the list, oldest first.
    fn release_contexts(&mut self, contexts: Vec<ContextId>)
        ensures
            final(self)@ == (CoreView {
                dropped: old(self)@.dropped + contexts_view(contexts@),
                ..old(self)@
            }),
    {
        let ghost orig = self@;
        proof {
            assert(contexts_view(contexts@.take(0)) =~= Seq::<Seq<u8>>::empty());
            assert(orig.dropped + contexts_view(contexts@.take(0)) =~= orig.dropped);
            assert(self@ =~= (CoreView {
                dropped: orig.dropped + contexts_view(contexts@.take(0)),
                ..orig
            }));
        }
        let n = contexts.len();
        let mut i: usize = 0;
        while i < n
            invariant
                n == contexts@.len(),
                i <= n,
                self@ == (CoreView {
                    dropped: orig.dropped + contexts_view(contexts@.take(i as int)),
                    ..orig
                }),
            decreases n - i,
        {
            let context_id = contexts[i];
            self.context_lifecycle.drop_context(context_id);
            self.dropped = Ghost(self.dropped@.push(context_id@));
            proof {
                assert(contexts_view(contexts@.take(i + 1)) =~= contexts_view(
                    contexts@.take(i as int),
                ).push(context_id@));
                assert(orig.dropped + contexts_view(contexts@.take(i + 1)) =~= (orig.dropped
                    + contexts_view(contexts@.take(i as int))).push(context_id@));
                assert(self@ =~= (CoreView {
                    dropped: orig.dropped + contexts_view(contexts@.take(i + 1)),
                    ..orig
                }));
            }
            i += 1;
        }
        proof {
            assert(contexts@.take(n as int) =~= contexts@);
        }
    }

    /// Whether the core is awaiting a completion for the transaction
    /// with the given identifier.
    fn awaiting_id(&self, txn_id: &String) -> (r: bool)
        ensures
            r == awaiting(self@, txn_id@),
    {
        match &self.shared.current {
            Some(execution) => match &execution.dispatched_transaction_id {
                Some(dispatched) => *dispatched == *txn_id,
                None => false,
            },
            None => false,
        }
    }

    /// Ingest the outcome of the receipt request made for a matched
    /// valid completion.  On a receipt, the result is recorded and the
    /// core moves on — dispatching the batch's next transaction or
    /// completing the batch; on an error, the failure goes to the error
    /// sink and the scheduler does not advance.
    pub fn apply_valid_completion(
        &mut self,
        context_id: ContextId,
        receipt: Result<TransactionReceipt, ContextManagerError>,
    )
        requires
            core_inv(old(self)@),
            old(self)@.shared.current is Some,
            receipt matches Ok(r) ==> r@.transaction_id == old(
                self,
            )@.shared.current->0.dispatched_transaction_id->0,
        ensures
            core_inv(final(self)@),
            core_idle_inv(old(self)@) ==> core_idle_inv(final(self)@),
            match receipt {
                Ok(r) => valid_ok_post(old(self)@, final(self)@, context_id@, r@),
                Err(e) => receipt_failed_post(old(self)@, final(self)@, cm_error_message(e@)),
            },
    {
        let ghost orig = self@;
        match receipt {
            Err(err) => {
                let ghost err_v = err@;
                let error = SchedulerError::Internal(err.message());
                let ghost error_g = error;
                self.errors.push(error);
                proof {
                    lemma_errors_push(old(self).errors@, error_g);
                    assert(self@ =~= (CoreView {
                        errors: orig.errors.push(SchedulerErrorView::Internal(cm_error_message(
                            err_v,
                        ))),
                        ..orig
                    }));
                }
            },
            Ok(receipt_value) => {
                let ghost receipt_v = receipt_value@;
                let taken = self.shared.take_current();
                let mut execution = taken.unwrap();
                let ghost c0 = execution@;
                proof {
                    assert(execution_inv(c0));
                }
                execution.accumulated.push(TransactionExecutionResult::Valid(receipt_value));
                execution.previous_context_id = Some(context_id);
                execution.dispatched_transaction_id = None;
                proof {
                    assert(crate::scheduler::results_view(execution.accumulated@)
                        =~= c0.accumulated.push(TransactionResultView::Valid(receipt_v)));
                }
                let txns_ref = execution.batch.batch().transactions();
                proof {
                    assert(crate::protocol::transactions_view(txns_ref@).len()
                        == txns_ref@.len());
                }
                let total = txns_ref.len();
                if execution.next_index < total {
                    let txn = txns_ref[execution.next_index].duplicate();
                    let ghost txn_v = txn@;
                    let mut deps: Vec<ContextId> = Vec::new();
                    deps.push(context_id);
                    let new_context = self.context_lifecycle.create_context(
                        deps.as_slice(),
                        self.state_id.as_str(),
                    );
                    let sig = txn.header_signature_string().clone();
                    let task = ExecutionTask::new(TransactionPair::new(txn), new_context);
                    let ghost task_v = task@;
                    self.task_queue.push(task);
                    execution.contexts.push(new_context);
                    execution.next_index = execution.next_index + 1;
                    execution.dispatched_transaction_id = Some(sig);
                    let ghost c2 = execution@;
                    self.shared.put_current(execution);
                    self.created = Ghost(self.created@.push(
                        ContextRequestView {
                            dependent_contexts: contexts_view(deps@),
                            state_id: self.state_id@,
                            context_id: new_context@,
                        },
                    ));
                    self.task_history = Ghost(self.task_history@.push(task_v));
                    proof {
                        assert(contexts_view(deps@) =~= Seq::<Seq<u8>>::empty().push(
                            context_id@,
                        ));
                    }
                    proof {
                        lemma_tasks_push(old(self).task_queue@, task);
                        assert(c2.contexts =~= c0.contexts.push(new_context@));
                        assert(c2.contexts.drop_last() =~= c0.contexts);
                        assert(c2.contexts.last() == new_context@);
                        assert(txn_v == c0.batch.transactions[c0.next_index]);
                        assert(valid_ok_post(orig, self@, context_id@, receipt_v));
                        assert(core_inv(self@)) by {
                            assert(execution_inv(c2)) by {
                                assert forall|i: int| 0 <= i < c2.accumulated.len() implies ((
                                #[trigger] c2.accumulated[i]) matches TransactionResultView::Valid(
                                    r,
                                ) && r.transaction_id
                                    == c2.batch.transactions[i].header_signature) by {
                                    if i < c0.accumulated.len() {
                                        assert(c0.accumulated[i] == c2.accumulated[i]);
                                    } else {
                                        assert(c2.accumulated[i] == TransactionResultView::Valid(
                                            receipt_v,
                                        ));
                                    }
                                }
                            }
                            assert(created_ids(self@.created) =~= self@.dropped
                                + live_contexts(self@)) by {
                                assert(created_ids(orig.created) == orig.dropped + c0.contexts);
                                assert(created_ids(self@.created) =~= created_ids(
                                    orig.created,
                                ).push(new_context@));
                            }
                            lemma_push_suffix(orig.task_history, orig.tasks, task_v);
                            assert(self@.task_history.skip(
                                self@.task_history.len() - c2.next_index,
                            ) =~= current_batch_tasks(c2)) by {
                                assert(orig.task_history.skip(
                                    orig.task_history.len() - c0.next_index,
                                ) == current_batch_tasks(c0));
                                assert forall|i: int| 0 <= i < c2.next_index implies self@
                                    .task_history.skip(self@.task_history.len() - c2.next_index)[i]
                                    == current_batch_tasks(c2)[i] by {
                                    if i < c0.next_index {
                                        assert(current_batch_tasks(c0)[i] == orig.task_history[
                                            orig.task_history.len() - c0.next_index + i]);
                                        assert(current_batch_tasks(c2)[i]
                                            == current_batch_tasks(c0)[i]);
                                    } else {
                                        assert(current_batch_tasks(c2)[i] == task_v);
                                    }
                                }
                            }
                        }
                    }
                } else {
                    proof {
                        assert(c0.next_index == c0.batch.transactions.len());
                    }
                    let BatchExecution { batch, accumulated, contexts, .. } = execution;
                    let result = BatchExecutionResult { batch, results: accumulated };
                    let ghost result_g = result;
                    self.results.push(Some(result));
                    self.release_contexts(contexts);
                    let ghost mid = self@;
                    proof {
                        lemma_emitted_push(old(self).results@, Some(result_g));
                        assert(mid =~= (CoreView {
                            shared: SharedView { current: None, ..orig.shared },
                            results: orig.results.push(
                                Some(
                                    BatchResultView {
                                        batch: c0.batch,
                                        results: c0.accumulated.push(
                                            TransactionResultView::Valid(receipt_v),
                                        ),
                                    },
                                ),
                            ),
                            dropped: orig.dropped + c0.contexts,
                            ..orig
                        }));
                        assert(core_inv(mid)) by {
                            assert(created_ids(mid.created) =~= mid.dropped + live_contexts(
                                mid,
                            )) by {
                                assert(created_ids(orig.created) == orig.dropped + c0.contexts);
                            }
                            assert(!orig.sentinel_sent);
                            assert forall|i: int| 0 <= i < mid.results.len() implies ((
                            #[trigger] mid.results[i]) is None <==> (mid.sentinel_sent && i
                                == mid.results.len() - 1)) by {
                                if i < orig.results.len() {
                                    assert(orig.results[i] == mid.results[i]);
                                }
                            }
                        }
                    }
                    self.try_activate_next();
                    proof {
                        assert(valid_ok_post(orig, self@, context_id@, receipt_v));
                    }
                }
            },
        }
    }

    /// Ingest a matched invalid completion: report every transaction of
    /// the current batch invalid — the failing one with the reported
    /// diagnostics — release the batch's contexts, and move on.
    pub fn apply_invalid_completion(&mut self, failure: InvalidTransactionResult)
        requires
            core_inv(old(self)@),
            awaiting(old(self)@, failure@.transaction_id),
        ensures
            core_inv(final(self)@),
            core_idle_inv(final(self)@),
            invalid_post(old(self)@, final(self)@, failure@),
    {
        let ghost orig = self@;
        let ghost failure_v = failure@;
        let taken = self.shared.take_current();
        let execution = taken.unwrap();
        let ghost c0 = execution@;
        proof {
            assert(execution_inv(c0));
        }
        let fail_index = execution.next_index - 1;
        let ghost target = invalid_batch_results(c0.batch, fail_index as int, failure_v);
        let mut out: Vec<TransactionExecutionResult> = Vec::new();
        let mut failure_slot = Some(failure);
        let ghost failure_g = failure_slot->0;
        let txns = execution.batch.batch().transactions();
        proof {
            assert(crate::protocol::transactions_view(txns@).len() == txns@.len());
            assert(target.len() == c0.batch.transactions.len());
            assert(crate::scheduler::results_view(out@) =~= target.take(0));
        }
        let n = txns.len();
        let mut i: usize = 0;
        while i < n
            invariant
                n == txns@.len(),
                crate::protocol::transactions_view(txns@) == c0.batch.transactions,
                target == invalid_batch_results(c0.batch, fail_index as int, failure_v),
                target.len() == n,
                c0.batch.transactions.len() == n,
                fail_index < n,
                failure_g@ == failure_v,
                i <= n,
                out@.len() == i,
                crate::scheduler::results_view(out@) == target.take(i as int),
                i <= fail_index ==> failure_slot == Some(failure_g),
                i > fail_index ==> failure_slot is None,
            decreases n - i,
        {
            if i == fail_index {
                let f = failure_slot.take().unwrap();
                out.push(TransactionExecutionResult::Invalid(f));
            } else {
                let entry = InvalidTransactionResult {
                    transaction_id: txns[i].header_signature_string().clone(),
                    error_message: String::new(),
                    error_data: Vec::new(),
                };
                proof {
                    assert(entry@ == empty_invalid_result(c0.batch.transactions[i as int]));
                }
                out.push(TransactionExecutionResult::Invalid(entry));
            }
            proof {
                assert(target.len() == c0.batch.transactions.len());
                assert(c0.batch.transactions.len() == n);
                assert(out@.len() == i + 1);
                assert(out@[i as int]@ == target[i as int]);
                assert forall|j: int|
                    0 <= j < i + 1 implies crate::scheduler::results_view(out@)[j] == target.take(
                    i as int + 1,
                )[j] by {
                    if j < i {
                        assert(crate::scheduler::results_view(out@)[j] == out@[j]@);
                    }
                }
                assert(crate::scheduler::results_view(out@) =~= target.take(i as int + 1));
            }
            i += 1;
        }
        proof {
            assert(target.take(n as int) =~= target);
        }
        let BatchExecution { batch, contexts, .. } = execution;
        let result = BatchExecutionResult { batch, results: out };
        let ghost result_g = result;
        self.results.push(Some(result));
        self.release_contexts(contexts);
        let ghost mid = self@;
        proof {
            lemma_emitted_push(old(self).results@, Some(result_g));
            assert(mid =~= (CoreView {
                shared: SharedView { current: None, ..orig.shared },
                results: orig.results.push(
                    Some(BatchResultView { batch: c0.batch, results: target }),
                ),
                dropped: orig.dropped + c0.contexts,
                ..orig
            }));
            assert(core_inv(mid)) by {
                assert(created_ids(mid.created) =~= mid.dropped + live_contexts(mid)) by {
                    assert(created_ids(orig.created) == orig.dropped + c0.contexts);
                }
                assert(!orig.sentinel_sent);
                assert forall|i: int| 0 <= i < mid.results.len() implies ((
                #[trigger] mid.results[i]) is None <==> (mid.sentinel_sent && i == mid.results.len()
                    - 1)) by {
                    if i < orig.results.len() {
                        assert(orig.results[i] == mid.results[i]);
                    }
                }
            }
        }
        self.try_activate_next();
        proof {
            assert(invalid_post(orig, self@, failure_v));
        }
    }

    /// Ingest a completion notification.  Only a notification for the
    /// transaction currently awaited changes the state; any other is
    /// surfaced through the error sink as an unexpected notification.
    pub fn handle_execution_result(&mut self, notification: ExecutionTaskCompletionNotification)
        requires
            core_inv(old(self)@),
        ensures
            core_inv(final(self)@),
            core_idle_inv(old(self)@) ==> core_idle_inv(final(self)@),
            notification_post(old(self)@, final(self)@, notification@),
    {
        let ghost orig = self@;
        let ghost n_v = notification@;
        match notification {
            ExecutionTaskCompletionNotification::Valid(context_id, txn_id) => {
                if self.awaiting_id(&txn_id) {
                    let receipt = self.context_lifecycle.get_transaction_receipt(
                        &context_id,
                        txn_id.as_str(),
                    );
                    let ghost receipt_g = receipt;
                    self.apply_valid_completion(context_id, receipt);
                    proof {
                        assert(n_v == NotificationView::Valid(context_id@, txn_id@));
                        match receipt_g {
                            Ok(r) => {
                                assert(valid_ok_post(orig, self@, context_id@, r@)
                                    && r@.transaction_id == txn_id@);
                            },
                            Err(e) => {
                                assert(receipt_failed_post(orig, self@, cm_error_message(e@)));
                            },
                        }
                        lemma_notification_post_valid(orig, self@, context_id@, txn_id@);
                    }
                } else {
                    let ghost id_v = txn_id@;
                    let error = SchedulerError::UnexpectedNotification(txn_id);
                    let ghost error_g = error;
                    self.errors.push(error);
                    proof {
                        lemma_errors_push(old(self).errors@, error_g);
                        assert(self@ =~= (CoreView {
                            errors: orig.errors.push(error_g@),
                            ..orig
                        }));
                        lemma_notification_post_unexpected(orig, self@, n_v);
                    }
                }
            },
            ExecutionTaskCompletionNotification::Invalid(context_id, failure) => {
                if self.awaiting_id(&failure.transaction_id) {
                    let ghost ctx_v = context_id@;
                    let ghost failure_v = failure@;
                    self.apply_invalid_completion(failure);
                    proof {
                        lemma_notification_post_invalid(orig, self@, ctx_v, failure_v);
                    }
                } else {
                    let InvalidTransactionResult { transaction_id, .. } = failure;
                    let error = SchedulerError::UnexpectedNotification(transaction_id);
                    let ghost error_g = error;
                    self.errors.push(error);
                    proof {
                        lemma_errors_push(old(self).errors@, error_g);
                        assert(self@ =~= (CoreView {
                            errors: orig.errors.push(error_g@),
                            ..orig
                        }));
                        lemma_notification_post_unexpected(orig, self@, n_v);
                    }
                }
            },
        }
    }

    /// React to the `Finalized` control event: emit the terminal
    /// sentinel if the scheduler is finalized, idle, and the sentinel
    /// has not been emitted yet.
    fn handle_finalized(&mut self)
        requires
            core_inv(old(self)@),
        ensures
            core_inv(final(self)@),
            core_idle_inv(old(self)@) ==> core_idle_inv(final(self)@),
            finalized_post(old(self)@, final(self)@),
    {
        let ghost orig = self@;
        if self.shared.finalized() && self.shared.current.is_none()
            && self.shared.unscheduled.len() == 0 && !self.sentinel_sent {
            proof {
                assert(crate::shared::batches_view(self.shared.unscheduled@).len() == 0);
            }
            self.results.push(None);
            self.sentinel_sent = true;
            proof {
                lemma_emitted_push(old(self).results@, None);
                assert(self@ =~= (CoreView {
                    results: orig.results.push(None),
                    sentinel_sent: true,
                    ..orig
                }));
                assert(core_inv(self@)) by {
                    assert forall|i: int| 0 <= i < self@.results.len() implies ((
                    #[trigger] self@.results[i]) is None <==> (self@.sentinel_sent && i
                        == self@.results.len() - 1)) by {
                        if i < orig.results.len() {
                            assert(orig.results[i] == self@.results[i]);
                        }
                    }
                }
            }
        } else {
            proof {
                assert(crate::shared::batches_view(self.shared.unscheduled@).len()
                    == self.shared.unscheduled@.len());
                assert(self@ =~= orig);
            }
        }
    }

    /// React to one control event.
    pub fn handle_message(&mut self, message: CoreMessage)
        requires
            core_inv(old(self)@),
        ensures
            core_inv(final(self)@),
            core_idle_inv(old(self)@) ==> core_idle_inv(final(self)@),
            message matches CoreMessage::BatchAdded ==> batch_added_post(
                old(self)@,
                final(self)@,
            ) && core_idle_inv(final(self)@),
            message matches CoreMessage::ExecutionResult(n) ==> notification_post(
                old(self)@,
                final(self)@,
                n@,
            ),
            message matches CoreMessage::Finalized ==> finalized_post(old(self)@, final(self)@),
            message matches CoreMessage::Shutdown ==> shutdown_post(old(self)@, final(self)@),
    {
        let ghost orig = self@;
        match message {
            CoreMessage::BatchAdded => {
                if self.task_channel_open && self.shared.current.is_none() {
                    self.try_activate_next();
                } else {
                    proof {
                        assert(self@ =~= orig);
                    }
                }
            },
            CoreMessage::ExecutionResult(notification) => {
                self.handle_execution_result(notification);
            },
            CoreMessage::Finalized => {
                self.handle_finalized();
            },
            CoreMessage::Shutdown => {
                self.task_channel_open = false;
                let taken = self.shared.take_current();
                match taken {
                    Some(execution) => {
                        let BatchExecution { contexts, .. } = execution;
                        self.release_contexts(contexts);
                        proof {
                            assert(self@ =~= (CoreView {
                                shared: SharedView { current: None, ..orig.shared },
                                task_channel_open: false,
                                dropped: orig.dropped + live_contexts(orig),
                                ..orig
                            }));
                        }
                    },
                    None => {
                        proof {
                            assert(orig.dropped + live_contexts(orig) =~= orig.dropped);
                            assert(self@ =~= (CoreView {
                                shared: SharedView { current: None, ..orig.shared },
                                task_channel_open: false,
                                dropped: orig.dropped + live_contexts(orig),
                                ..orig
                            }));
                        }
                    },
                }
                proof {
                    assert(core_inv(self@)) by {
                        assert(created_ids(self@.created) =~= self@.dropped + live_contexts(
                            self@,
                        )) by {
                            assert(created_ids(orig.created) == orig.dropped + live_contexts(
                                orig,
                            ));
                        }
                    }
                }
            },
        }
    }

    /// Pull the next ready task from the task channel, if one is
    /// pending.
    pub fn next_task(&mut self) -> (task: Option<ExecutionTask>)
        requires
            core_inv(old(self)@),
        ensures
            core_inv(final(self)@),
            core_idle_inv(old(self)@) ==> core_idle_inv(final(self)@),
            old(self)@.tasks.len() == 0 ==> task is None && final(self)@ == old(self)@,
            old(self)@.tasks.len() > 0 ==> {
                &&& task matches Some(t) && t@ == old(self)@.tasks[0]
                &&& final(self)@ == (CoreView { tasks: old(self)@.tasks.drop_first(), ..old(
                    self,
                )@ })
            },
    {
        let ghost orig = self@;
        proof {
            assert(tasks_view(self.task_queue@).len() == self.task_queue@.len());
        }
        if self.task_queue.len() == 0 {
            proof {
                assert(self@ =~= orig);
            }
            None
        } else {
            let task = self.task_queue.remove(0);
            proof {
                assert(tasks_view(self.task_queue@) =~= orig.tasks.drop_first());
                assert(self@ =~= (CoreView { tasks: orig.tasks.drop_first(), ..orig }));
                assert(core_inv(self@)) by {
                    assert(self@.tasks =~= self@.task_history.skip(
                        self@.task_history.len() - self@.tasks.len(),
                    ));
                }
            }
            Some(task)
        }
    }
}


} // verus!
