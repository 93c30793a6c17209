//! The guarantees a serial scheduler gives its users, each proved from
//! the invariant and the operation contracts.

use vstd::prelude::*;

use crate::protocol::BatchView;
use crate::scheduler::InvalidResultView;
use crate::scheduler::NotificationView;
use crate::scheduler::SchedulerError;
use crate::scheduler::SchedulerErrorView;
use crate::scheduler::TaskView;
use crate::scheduler::TransactionResultView;
use crate::scheduler::notification_transaction_id;
use crate::serial::SerialSchedulerView;
use crate::serial::add_batch_post;
use crate::serial::cancel_post;
use crate::serial::finalize_scheduler_post;
use crate::serial::take_task_iterator_post;
use crate::shared::tracks;
use crate::worker::CoreView;
use crate::worker::activation_post;
use crate::worker::awaiting;
use crate::worker::core_inv;
use crate::worker::created_ids;
use crate::worker::current_batch_tasks;
use crate::worker::empty_invalid_result;
use crate::worker::execution_inv;
use crate::worker::first_ready;
use crate::worker::invalid_batch_results;
use crate::worker::invalid_post;
use crate::worker::lemma_first_ready;
use crate::worker::notification_post;
use crate::worker::receipt_failed_post;
use crate::worker::shutdown_post;
use crate::worker::valid_ok_post;

verus! {

/// Uniqueness: while a batch's header signature is still tracked —
/// pending or in progress — submitting another batch with the same
/// signature is rejected as a duplicate of it, and the scheduler's
/// state does not change.
pub proof fn lemma_uniqueness(
    pre: SerialSchedulerView,
    post: SerialSchedulerView,
    b: BatchView,
    r: Result<(), SchedulerError>,
)
    requires
        !pre.core.shared.finalized,
        tracks(pre.core.shared, b.header_signature),
        add_batch_post(pre, post, b, r),
    ensures
        r matches Err(e) && e@ == SchedulerErrorView::DuplicateBatch(b.header_signature),
        post == pre,
{
}

/// Finalize rejection: after `finalize` — whether or not it could
/// still reach the core — an `add_batch` is rejected with
/// `SchedulerFinalized` and the scheduler's state does not change.
pub proof fn lemma_finalize_rejection(
    v1: SerialSchedulerView,
    v2: SerialSchedulerView,
    v3: SerialSchedulerView,
    b: BatchView,
    r0: Result<(), SchedulerError>,
    r: Result<(), SchedulerError>,
)
    requires
        finalize_scheduler_post(v1, v2, r0),
        add_batch_post(v2, v3, b, r),
    ensures
        r matches Err(e) && e@ == SchedulerErrorView::SchedulerFinalized,
        v3 == v2,
{
}

/// Activation never changes the finalization flag.
pub proof fn lemma_activation_keeps_finalized(mid: CoreView, post: CoreView)
    requires
        activation_post(mid, post),
    ensures
        post.shared.finalized == mid.shared.finalized,
{
}

/// Ingesting a completion notification never changes the finalization
/// flag: once finalized, a scheduler stays finalized, so every
/// subsequent `add_batch` keeps being rejected.
pub proof fn lemma_notification_keeps_finalized(pre: CoreView, post: CoreView, n: NotificationView)
    requires
        notification_post(pre, post, n),
    ensures
        post.shared.finalized == pre.shared.finalized,
{
    let txn_id = notification_transaction_id(n);
    if awaiting(pre, txn_id) {
        match n {
            NotificationView::Valid(ctx, _) => {
                if exists|receipt: crate::protocol::ReceiptView|
                    #[trigger] valid_ok_post(pre, post, ctx, receipt) && receipt.transaction_id
                        == txn_id {
                    let receipt = choose|receipt: crate::protocol::ReceiptView|
                        #[trigger] valid_ok_post(pre, post, ctx, receipt)
                            && receipt.transaction_id == txn_id;
                    let c = pre.shared.current->0;
                    if c.next_index < c.batch.transactions.len() {
                    } else {
                        lemma_activation_keeps_finalized(
                            CoreView {
                                shared: crate::shared::SharedView { current: None, ..pre.shared },
                                results: pre.results.push(
                                    Some(
                                        crate::scheduler::BatchResultView {
                                            batch: c.batch,
                                            results: c.accumulated.push(
                                                TransactionResultView::Valid(receipt),
                                            ),
                                        },
                                    ),
                                ),
                                dropped: pre.dropped + c.contexts,
                                ..pre
                            },
                            post,
                        );
                    }
                } else {
                    let msg = choose|msg: Seq<char>| receipt_failed_post(pre, post, msg);
                    assert(receipt_failed_post(pre, post, msg));
                }
            },
            NotificationView::Invalid(_, failure) => {
                let c = pre.shared.current->0;
                lemma_activation_keeps_finalized(
                    CoreView {
                        shared: crate::shared::SharedView { current: None, ..pre.shared },
                        results: pre.results.push(
                            Some(
                                crate::scheduler::BatchResultView {
                                    batch: c.batch,
                                    results: invalid_batch_results(
                                        c.batch,
                                        c.next_index - 1,
                                        failure,
                                    ),
                                },
                            ),
                        ),
                        dropped: pre.dropped + c.contexts,
                        ..pre
                    },
                    post,
                );
            },
        }
    }
}

/// Terminal sentinel: finalizing an otherwise-idle, running scheduler
/// emits the `None` sentinel, once, as the newest entry of the result
/// sink.
pub proof fn lemma_terminal_sentinel(
    pre: SerialSchedulerView,
    post: SerialSchedulerView,
    r: Result<(), SchedulerError>,
)
    requires
        pre.core.task_channel_open,
        pre.core.shared.current is None,
        pre.core.shared.unscheduled.len() == 0,
        !pre.core.sentinel_sent,
        finalize_scheduler_post(pre, post, r),
    ensures
        r is Ok,
        post.core.results == pre.core.results.push(None),
        post.core.sentinel_sent,
{
}

/// The sentinel is emitted exactly once: once it has been sent, it is
/// present as the result sink's newest entry; and the sink never holds
/// more than one `None`, nor one anywhere but last.
pub proof fn lemma_sentinel_at_most_once(v: CoreView)
    requires
        core_inv(v),
    ensures
        v.sentinel_sent ==> v.results.len() > 0 && v.results[v.results.len() - 1] is None,
        forall|i: int, j: int|
            0 <= i < v.results.len() && 0 <= j < v.results.len() && (#[trigger] v.results[i])
                is None && (#[trigger] v.results[j]) is None ==> i == j,
        forall|i: int|
            0 <= i < v.results.len() && (#[trigger] v.results[i]) is None ==> i == v.results.len()
                - 1,
{
}

/// Single iterator: the task sequence is handed out once; after a
/// successful transfer, a second request fails with `NoTaskIterator`
/// and changes nothing.
pub proof fn lemma_single_iterator(
    v1: SerialSchedulerView,
    v2: SerialSchedulerView,
    v3: SerialSchedulerView,
    r1: Result<(), SchedulerError>,
    r2: Result<(), SchedulerError>,
)
    requires
        take_task_iterator_post(v1, v2, r1),
        r1 is Ok,
        take_task_iterator_post(v2, v3, r2),
    ensures
        r2 matches Err(e) && e@ == SchedulerErrorView::NoTaskIterator,
        v3 == v2,
{
}

/// Order within a batch (serial): the tasks produced for the batch in
/// progress are exactly its first `next_index` transactions, in
/// submission order, each with the context created for it; and at most
/// one of them — always the newest — is unacknowledged.
pub proof fn lemma_order_within_batch(v: CoreView)
    requires
        core_inv(v),
        v.shared.current is Some,
    ensures
        v.shared.current->0.next_index == v.shared.current->0.accumulated.len() + 1,
        forall|i: int|
            0 <= i < v.shared.current->0.next_index ==> v.task_history[v.task_history.len()
                - v.shared.current->0.next_index + i] == (TaskView {
                pair: v.shared.current->0.batch.transactions[i],
                context_id: v.shared.current->0.contexts[i],
            }),
{
    let c = v.shared.current->0;
    assert(execution_inv(c));
    assert forall|i: int| 0 <= i < c.next_index implies v.task_history[v.task_history.len()
        - c.next_index + i] == (TaskView {
        pair: c.batch.transactions[i],
        context_id: c.contexts[i],
    }) by {
        assert(v.task_history.skip(v.task_history.len() - c.next_index)[i]
            == current_batch_tasks(c)[i]);
    }
}

/// Batch atomicity: when a batch of `n` transactions is invalidated by
/// one invalid outcome, the emitted result has exactly `n` entries, one
/// per transaction of the batch in its order, every one of them
/// invalid; the failing transaction carries the reported diagnostics
/// and every other entry carries its own transaction's identifier with
/// empty diagnostics.
pub proof fn lemma_batch_atomicity(b: BatchView, fail_index: int, failure: InvalidResultView)
    requires
        0 <= fail_index < b.transactions.len(),
    ensures
        invalid_batch_results(b, fail_index, failure).len() == b.transactions.len(),
        forall|i: int|
            0 <= i < b.transactions.len() ==> (#[trigger] invalid_batch_results(
                b,
                fail_index,
                failure,
            )[i]) is Invalid,
        invalid_batch_results(b, fail_index, failure)[fail_index]
            == TransactionResultView::Invalid(failure),
        forall|i: int|
            0 <= i < b.transactions.len() && i != fail_index ==> (#[trigger] invalid_batch_results(
                b,
                fail_index,
                failure,
            )[i]) == TransactionResultView::Invalid(empty_invalid_result(b.transactions[i])),
{
}

/// After a batch is invalidated, no further task of it is dispatched:
/// the batch leaves the current slot, and the invariant's signature
/// uniqueness rules out a queued duplicate, so activation can only
/// dispatch a different batch.
pub proof fn lemma_invalidated_batch_dispatches_nothing(
    pre: CoreView,
    post: CoreView,
    failure: InvalidResultView,
)
    requires
        core_inv(pre),
        pre.shared.current is Some,
        invalid_post(pre, post, failure),
    ensures
        post.shared.current matches Some(c2) ==> c2.batch.header_signature
            != pre.shared.current->0.batch.header_signature,
{
    let q = pre.shared.unscheduled;
    let k = first_ready(q);
    lemma_first_ready(q);
    if k < q.len() {
        assert(post.shared.current->0.batch == q[k]);
        assert(q[k].header_signature != pre.shared.current->0.batch.header_signature);
    }
}

/// Cancel idempotence: cancelling right after a cancel returns the
/// empty list.
pub proof fn lemma_cancel_idempotence(
    v1: SerialSchedulerView,
    v2: SerialSchedulerView,
    v3: SerialSchedulerView,
    d1: Seq<BatchView>,
    d2: Seq<BatchView>,
)
    requires
        cancel_post(v1, v2, d1),
        cancel_post(v2, v3, d2),
    ensures
        d2 == Seq::<BatchView>::empty(),
{
}

/// Context lifecycle at shutdown: handling `Shutdown` abandons the
/// batch in progress and releases its live contexts, so by the time
/// shutdown completes, every context ever created has been released,
/// exactly once, in creation order.
pub proof fn lemma_context_release_at_shutdown(pre: CoreView, post: CoreView)
    requires
        core_inv(pre),
        shutdown_post(pre, post),
    ensures
        created_ids(post.created) == post.dropped,
{
    assert(created_ids(post.created) =~= post.dropped) by {
        assert(created_ids(pre.created) == pre.dropped + crate::worker::live_contexts(pre));
    }
}

/// Context lifecycle: whenever no batch is in progress — in particular
/// once the scheduler has shut down — every context ever created has
/// been released, exactly once, in creation order.
pub proof fn lemma_context_lifecycle(v: CoreView)
    requires
        core_inv(v),
        v.shared.current is None,
    ensures
        created_ids(v.created) == v.dropped,
{
    assert(created_ids(v.created) =~= v.dropped) by {
        assert(created_ids(v.created) == v.dropped + crate::worker::live_contexts(v));
        assert(v.dropped + Seq::<Seq<u8>>::empty() =~= v.dropped);
    }
}

} // verus!
