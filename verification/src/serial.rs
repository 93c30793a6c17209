//! A scheduler which schedules transactions for execution one at a
//! time.
//!
//! [`SerialScheduler`] wraps the verified [`SchedulerCore`] with the
//! submission-side validation — duplicate and finalization checks, the
//! single hand-off of the task iterator — and with the pull and
//! notification entry points.  Every operation is synchronous here; a
//! threaded embedding puts the core behind a worker thread and channels
//! and calls these same steps from its loop.

use vstd::prelude::*;
use vstd::string::StringExecFns;

use crate::context::ContextLifecycle;
use crate::protocol::BatchPair;
use crate::protocol::BatchView;
use crate::scheduler::BatchExecutionResult;
use crate::scheduler::ExecutionTask;
use crate::scheduler::ExecutionTaskCompletionNotification;
use crate::scheduler::SchedulerError;
use crate::scheduler::SchedulerErrorView;
use crate::scheduler::TaskView;
use crate::shared::SharedView;
use crate::shared::batches_view;
use crate::shared::tracks;
use crate::worker::ContextRequestView;
use crate::worker::CoreMessage;
use crate::worker::CoreView;
use crate::worker::SchedulerCore;
use crate::worker::activated_execution;
use crate::worker::core_idle_inv;
use crate::worker::core_inv;
use crate::worker::drained_empty_results;
use crate::worker::empty_batch_result;
use crate::worker::emitted_results_view;
use crate::worker::errors_view;
use crate::worker::first_ready;
use crate::worker::created_ids;
use crate::worker::initial_core_view;
use crate::worker::notification_post;
use crate::worker::shutdown_post;

verus! {

/// Mathematical model of a [`SerialScheduler`].
#[verifier::ext_equal]
pub struct SerialSchedulerView {
    pub core: CoreView,
    pub task_iterator_taken: bool,
}

/// Well-formedness of a serial scheduler: the core invariant holds and
/// activation is eager.
pub open spec fn scheduler_inv(v: SerialSchedulerView) -> bool {
    &&& core_inv(v.core)
    &&& core_idle_inv(v.core)
}

/// What `add_batch` does: a finalized scheduler rejects the batch; a
/// batch whose header signature is already queued or in progress is
/// rejected as a duplicate; any other batch is accepted.  On a
/// scheduler that has shut down, the batch still joins the queue but
/// the core no longer runs, so the call reports the worker as
/// disconnected.
pub open spec fn add_batch_post(
    pre: SerialSchedulerView,
    post: SerialSchedulerView,
    b: BatchView,
    r: Result<(), SchedulerError>,
) -> bool {
    &&& post.task_iterator_taken == pre.task_iterator_taken
    &&& if pre.core.shared.finalized {
        &&& r matches Err(e) && e@ == SchedulerErrorView::SchedulerFinalized
        &&& post == pre
    } else if tracks(pre.core.shared, b.header_signature) {
        &&& r matches Err(e) && e@ == SchedulerErrorView::DuplicateBatch(b.header_signature)
        &&& post == pre
    } else if pre.core.task_channel_open {
        &&& r is Ok
        &&& accepted_batch_post(pre.core, post.core, b)
    } else {
        &&& r matches Err(e) && e@ == SchedulerErrorView::Internal(
            "scheduler's core thread disconnected: sending on a closed channel"@,
        )
        &&& post.core == (CoreView {
            shared: SharedView {
                unscheduled: pre.core.shared.unscheduled.push(b),
                ..pre.core.shared
            },
            ..pre.core
        })
    }
}

/// The effect of accepting a batch.  While a batch is in progress the
/// new one only joins the queue; on an idle scheduler it is activated at
/// once — its first transaction is dispatched, or, if it has no
/// transactions, its (empty) result is emitted immediately.
pub open spec fn accepted_batch_post(pre: CoreView, post: CoreView, b: BatchView) -> bool {
    if pre.shared.current is Some {
        post == (CoreView {
            shared: SharedView { unscheduled: pre.shared.unscheduled.push(b), ..pre.shared },
            ..pre
        })
    } else if b.transactions.len() == 0 {
        post == (CoreView { results: pre.results.push(Some(empty_batch_result(b))), ..pre })
    } else {
        &&& post.shared.current matches Some(c) && activated_execution(c, b)
        &&& post.shared.unscheduled == Seq::<BatchView>::empty()
        &&& post.shared.finalized == pre.shared.finalized
        &&& post.tasks == pre.tasks.push(
            TaskView { pair: b.transactions[0], context_id: post.shared.current->0.contexts[0] },
        )
        &&& post.task_history == pre.task_history.push(
            TaskView { pair: b.transactions[0], context_id: post.shared.current->0.contexts[0] },
        )
        &&& post.created == pre.created.push(
            (ContextRequestView {
                dependent_contexts: Seq::<Seq<u8>>::empty(),
                state_id: pre.state_id,
                context_id: post.shared.current->0.contexts[0],
            }),
        )
        &&& post.dropped == pre.dropped
        &&& post.results == pre.results
        &&& post.errors == pre.errors
        &&& post.sentinel_sent == pre.sentinel_sent
        &&& post.task_channel_open == pre.task_channel_open
        &&& post.state_id == pre.state_id
    }
}

/// What `cancel` does: the unscheduled queue is drained and returned;
/// the batch in progress, if any, keeps executing.
pub open spec fn cancel_post(
    pre: SerialSchedulerView,
    post: SerialSchedulerView,
    drained: Seq<BatchView>,
) -> bool {
    &&& drained == pre.core.shared.unscheduled
    &&& post == (SerialSchedulerView {
        core: CoreView {
            shared: SharedView { unscheduled: Seq::<BatchView>::empty(), ..pre.core.shared },
            ..pre.core
        },
        ..pre
    })
}

/// What `finalize` does: the scheduler stops accepting batches, and on
/// an already-idle scheduler the terminal sentinel is emitted at once
/// (and only if it has not been emitted before).  On a scheduler that
/// has shut down the flag is still set, but the core no longer runs,
/// so the call reports the worker as disconnected and nothing is
/// emitted.
pub open spec fn finalize_scheduler_post(
    pre: SerialSchedulerView,
    post: SerialSchedulerView,
    r: Result<(), SchedulerError>,
) -> bool {
    &&& post.task_iterator_taken == pre.task_iterator_taken
    &&& post.core.shared.finalized
    &&& if pre.core.task_channel_open {
        &&& r is Ok
        &&& if pre.core.shared.current is None && pre.core.shared.unscheduled.len() == 0
            && !pre.core.sentinel_sent {
            post.core == (CoreView {
                shared: SharedView { finalized: true, ..pre.core.shared },
                results: pre.core.results.push(None),
                sentinel_sent: true,
                ..pre.core
            })
        } else {
            post.core == (CoreView {
                shared: SharedView { finalized: true, ..pre.core.shared },
                ..pre.core
            })
        }
    } else {
        &&& r matches Err(e) && e@ == SchedulerErrorView::Internal(
            "scheduler's core thread disconnected: sending on a closed channel"@,
        )
        &&& post.core == (CoreView {
            shared: SharedView { finalized: true, ..pre.core.shared },
            ..pre.core
        })
    }
}

/// What `take_task_iterator` does: the single task sequence can be
/// handed out once; every further request fails.
pub open spec fn take_task_iterator_post(
    pre: SerialSchedulerView,
    post: SerialSchedulerView,
    r: Result<(), SchedulerError>,
) -> bool {
    if pre.task_iterator_taken {
        &&& r matches Err(e) && e@ == SchedulerErrorView::NoTaskIterator
        &&& post == pre
    } else {
        &&& r is Ok
        &&& post == (SerialSchedulerView { task_iterator_taken: true, ..pre })
    }
}

/// A scheduler implementation which schedules transactions for
/// execution one at a time.
pub struct SerialScheduler<C: ContextLifecycle> {
    core: SchedulerCore<C>,
    task_iterator_taken: bool,
}

impl<C: ContextLifecycle> View for SerialScheduler<C> {
    type V = SerialSchedulerView;

    closed spec fn view(&self) -> SerialSchedulerView {
        SerialSchedulerView {
            core: self.core@,
            task_iterator_taken: self.task_iterator_taken,
        }
    }
}

impl<C: ContextLifecycle> SerialScheduler<C> {
    /// A newly created serial scheduler around the given context
    /// lifecycle, scheduling against the state identified by
    /// `state_id`.  Construction always succeeds; the `Result` is the
    /// shape embeddings expect from a scheduler constructor.
    pub fn new(context_lifecycle: C, state_id: String) -> (r: Result<Self, SchedulerError>)
        ensures
            r matches Ok(scheduler) && {
                &&& scheduler@.core == initial_core_view(state_id@)
                &&& !scheduler@.task_iterator_taken
                &&& scheduler_inv(scheduler@)
            },
    {
        Ok(
            SerialScheduler {
                core: SchedulerCore::new(context_lifecycle, state_id),
                task_iterator_taken: false,
            },
        )
    }

    /// Add a batch to the scheduler.  Fails with `SchedulerFinalized`
    /// after `finalize`, and with `DuplicateBatch` if a batch with the
    /// same header signature is already pending or in progress.
    pub fn add_batch(&mut self, batch: BatchPair) -> (r: Result<(), SchedulerError>)
        requires
            scheduler_inv(old(self)@),
        ensures
            scheduler_inv(final(self)@),
            add_batch_post(old(self)@, final(self)@, batch@, r),
            r is Ok ==> batch@.transactions.len() > 0 ==> tracks(
                final(self)@.core.shared,
                batch@.header_signature,
            ),
    {
        let ghost pre = self@;
        let ghost b_v = batch@;
        if self.core.shared.finalized() {
            return Err(SchedulerError::SchedulerFinalized);
        }
        if self.core.shared.batch_already_queued(&batch) {
            let sig = batch.batch().header_signature_string().clone();
            return Err(SchedulerError::DuplicateBatch(sig));
        }
        proof {
            assert(!pre.core.sentinel_sent);
        }
        self.core.shared.add_unscheduled_batch(batch);
        let ghost mid = self@;
        proof {
            assert(mid.core =~= (CoreView {
                shared: SharedView {
                    unscheduled: pre.core.shared.unscheduled.push(b_v),
                    ..pre.core.shared
                },
                ..pre.core
            }));
            assert(core_inv(mid.core));
        }
        if !self.core.task_channel_open {
            return Err(
                SchedulerError::Internal(
                    String::from_str("scheduler's core thread disconnected: sending on a closed channel"),
                ),
            );
        }
        self.core.handle_message(CoreMessage::BatchAdded);
        proof {
            if pre.core.shared.current is Some {
                assert(self@.core == mid.core);
                assert(accepted_batch_post(pre.core, self@.core, b_v));
            } else {
                assert(pre.core.shared.unscheduled.len() == 0);
                let q = mid.core.shared.unscheduled;
                assert(q =~= Seq::<BatchView>::empty().push(b_v));
                assert(q.len() == 1 && q[0] == b_v);
                if b_v.transactions.len() == 0 {
                    assert(q.drop_first() =~= Seq::<BatchView>::empty());
                    assert(first_ready(q.drop_first()) == 0);
                    assert(first_ready(q) == 1);
                    assert(drained_empty_results(q, 1) =~= Seq::<
                        Option<crate::scheduler::BatchResultView>,
                    >::empty().push(Some(empty_batch_result(b_v))));
                    assert(mid.core.results + drained_empty_results(q, 1) =~= pre.core.results
                        .push(Some(empty_batch_result(b_v))));
                    assert(self@.core =~= (CoreView {
                        results: pre.core.results.push(Some(empty_batch_result(b_v))),
                        ..pre.core
                    }));
                } else {
                    assert(first_ready(q) == 0);
                    assert(drained_empty_results(q, 0) =~= Seq::<
                        Option<crate::scheduler::BatchResultView>,
                    >::empty());
                    assert(mid.core.results + drained_empty_results(q, 0) =~= pre.core.results);
                    assert(q.skip(1) =~= Seq::<BatchView>::empty());
                    assert(accepted_batch_post(pre.core, self@.core, b_v));
                }
            }
            if b_v.transactions.len() > 0 {
                assert(tracks(self@.core.shared, b_v.header_signature)) by {
                    if pre.core.shared.current is Some {
                        assert(self@.core.shared.unscheduled[pre.core.shared.unscheduled.len()
                            as int].header_signature == b_v.header_signature);
                    }
                }
            }
        }
        Ok(())
    }

    /// Drain and return the batches that have not been scheduled yet.
    /// The currently executing transaction, if any, is not cancelled:
    /// its batch's result will still be delivered.
    pub fn cancel(&mut self) -> (r: Result<Vec<BatchPair>, SchedulerError>)
        requires
            scheduler_inv(old(self)@),
        ensures
            scheduler_inv(final(self)@),
            r matches Ok(drained) && cancel_post(old(self)@, final(self)@, batches_view(drained@)),
    {
        let drained = self.core.shared.drain_unscheduled_batches();
        proof {
            assert(self@ =~= (SerialSchedulerView {
                core: CoreView {
                    shared: SharedView {
                        unscheduled: Seq::<BatchView>::empty(),
                        ..old(self)@.core.shared
                    },
                    ..old(self)@.core
                },
                ..old(self)@
            }));
        }
        Ok(drained)
    }

    /// Finalize the scheduler: no further batches will be accepted.
    /// Idempotent.  Once all accepted batches have produced their
    /// results, the terminal sentinel (a `None` result) is emitted
    /// exactly once.
    pub fn finalize(&mut self) -> (r: Result<(), SchedulerError>)
        requires
            scheduler_inv(old(self)@),
        ensures
            scheduler_inv(final(self)@),
            finalize_scheduler_post(old(self)@, final(self)@, r),
    {
        let ghost pre = self@;
        self.core.shared.set_finalized(true);
        let ghost mid = self@;
        proof {
            assert(mid.core =~= (CoreView {
                shared: SharedView { finalized: true, ..pre.core.shared },
                ..pre.core
            }));
            assert(core_inv(mid.core));
        }
        if !self.core.task_channel_open {
            return Err(
                SchedulerError::Internal(
                    String::from_str("scheduler's core thread disconnected: sending on a closed channel"),
                ),
            );
        }
        self.core.handle_message(CoreMessage::Finalized);
        proof {
            if pre.core.shared.current is None && pre.core.shared.unscheduled.len() == 0
                && !pre.core.sentinel_sent {
                assert(self@.core =~= (CoreView {
                    shared: SharedView { finalized: true, ..pre.core.shared },
                    results: pre.core.results.push(None),
                    sentinel_sent: true,
                    ..pre.core
                }));
            } else {
                assert(self@.core == mid.core);
            }
        }
        Ok(())
    }

    /// Transfer the single task sequence to the caller.  The pull side
    /// is [`Self::next_task`]; a second transfer fails with
    /// `NoTaskIterator`.
    pub fn take_task_iterator(&mut self) -> (r: Result<(), SchedulerError>)
        requires
            scheduler_inv(old(self)@),
        ensures
            scheduler_inv(final(self)@),
            take_task_iterator_post(old(self)@, final(self)@, r),
    {
        if self.task_iterator_taken {
            Err(SchedulerError::NoTaskIterator)
        } else {
            self.task_iterator_taken = true;
            proof {
                assert(self@ =~= (SerialSchedulerView { task_iterator_taken: true, ..old(
                    self,
                )@ }));
            }
            Ok(())
        }
    }

    /// Pull the next ready execution task, if one is pending.
    pub fn next_task(&mut self) -> (task: Option<ExecutionTask>)
        requires
            scheduler_inv(old(self)@),
        ensures
            scheduler_inv(final(self)@),
            final(self)@.task_iterator_taken == old(self)@.task_iterator_taken,
            old(self)@.core.tasks.len() == 0 ==> task is None && final(self)@ == old(self)@,
            old(self)@.core.tasks.len() > 0 ==> {
                &&& task matches Some(t) && t@ == old(self)@.core.tasks[0]
                &&& final(self)@ == (SerialSchedulerView {
                    core: CoreView {
                        tasks: old(self)@.core.tasks.drop_first(),
                        ..old(self)@.core
                    },
                    ..old(self)@
                })
            },
    {
        let task = self.core.next_task();
        proof {
            if old(self)@.core.tasks.len() > 0 {
                assert(self@ =~= (SerialSchedulerView {
                    core: CoreView {
                        tasks: old(self)@.core.tasks.drop_first(),
                        ..old(self)@.core
                    },
                    ..old(self)@
                }));
            } else {
                assert(self@ =~= old(self)@);
            }
        }
        task
    }

    /// Post a completion notification for a dispatched transaction.
    /// Posting to a scheduler that has shut down is silently dropped.
    pub fn notify(&mut self, notification: ExecutionTaskCompletionNotification)
        requires
            scheduler_inv(old(self)@),
        ensures
            scheduler_inv(final(self)@),
            final(self)@.task_iterator_taken == old(self)@.task_iterator_taken,
            old(self)@.core.task_channel_open ==> notification_post(
                old(self)@.core,
                final(self)@.core,
                notification@,
            ),
            !old(self)@.core.task_channel_open ==> final(self)@ == old(self)@,
    {
        if self.core.task_channel_open {
            self.core.handle_message(CoreMessage::ExecutionResult(notification));
        }
    }

    /// Shut the scheduler down: the task channel closes, the task
    /// sequence ends, and the batch in progress, if any, is abandoned
    /// without a synthetic result, its live contexts released.  By the
    /// time this returns, every context ever created has been released
    /// exactly once.  Idempotent: a second shutdown changes nothing.
    pub fn shutdown(&mut self)
        requires
            scheduler_inv(old(self)@),
        ensures
            scheduler_inv(final(self)@),
            final(self)@.task_iterator_taken == old(self)@.task_iterator_taken,
            old(self)@.core.task_channel_open ==> shutdown_post(
                old(self)@.core,
                final(self)@.core,
            ),
            !old(self)@.core.task_channel_open ==> final(self)@ == old(self)@,
            !final(self)@.core.task_channel_open,
            created_ids(final(self)@.core.created) == final(self)@.core.dropped,
    {
        if self.core.task_channel_open {
            self.core.handle_message(CoreMessage::Shutdown);
        }
        proof {
            assert(created_ids(self@.core.created) =~= self@.core.dropped) by {
                assert(created_ids(self@.core.created) == self@.core.dropped
                    + crate::worker::live_contexts(self@.core));
                assert(self@.core.dropped + Seq::<Seq<u8>>::empty() =~= self@.core.dropped);
            }
        }
    }

    /// Whether a batch with the same header signature is pending or in
    /// progress.
    pub fn batch_already_queued(&self, batch: &BatchPair) -> (r: bool)
        ensures
            r == tracks(self@.core.shared, batch@.header_signature),
    {
        self.core.shared.batch_already_queued(batch)
    }

    /// Everything emitted to the result sink so far, in order.  The
    /// terminal `None` sentinel, once present, is the last entry.
    pub fn results(&self) -> (results: &Vec<Option<BatchExecutionResult>>)
        ensures
            emitted_results_view(results@) == self@.core.results,
    {
        &self.core.results
    }

    /// Everything emitted to the error sink so far, in order.
    pub fn errors(&self) -> (errors: &Vec<SchedulerError>)
        ensures
            errors_view(errors@) == self@.core.errors,
    {
        &self.core.errors
    }
}

} // verus!
