//! The task loop's retry policy: what to do with a task after one handler
//! attempt.
//!
//! The loop is the only place that interprets "task is done" versus "task
//! must be retried"; the handler signals its outcome through its result
//! alone. A failed attempt is retried a bounded number of times by
//! re-enqueueing the task; once the bound is exhausted the failure is
//! recorded permanently as an `Errored` status. No single task's failure
//! ever stops the loop: every outcome maps to one of the three actions
//! below, and none of them is "terminate".

use vstd::prelude::*;

use crate::models::{FileTaskStatus, WorkerError};

verus! {

/// What the loop does with a task after a handler attempt.
#[derive(Clone, Copy, Debug, PartialEq, Eq, Structural)]
pub enum LoopAction {
    /// The attempt succeeded: acknowledge the task, removing it from the
    /// queue for good.
    Acknowledge,
    /// The attempt failed but retries remain: put the task back on the queue.
    Requeue,
    /// The attempt failed and retries are exhausted: record the failure as
    /// the document's permanent status.
    RecordFailure(WorkerError),
}

/// The action the policy picks after an attempt: success acknowledges;
/// failure requeues while fewer than `max_attempts` attempts have run, and
/// records the last error once `attempts_made` attempts (this one included)
/// have reached the bound.
pub open spec fn spec_decide(
    outcome: Result<(), WorkerError>,
    attempts_made: u32,
    max_attempts: u32,
) -> LoopAction {
    match outcome {
        Ok(()) => LoopAction::Acknowledge,
        Err(e) => if attempts_made < max_attempts {
            LoopAction::Requeue
        } else {
            LoopAction::RecordFailure(e)
        },
    }
}

/// Per-task bookkeeping of the retry policy: how many handler attempts this
/// delivery has consumed, against the policy's bound.
#[derive(Clone, Copy, Debug, PartialEq, Eq, Structural)]
pub struct TaskRetryState {
    pub attempts_made: u32,
    pub max_attempts: u32,
}

impl TaskRetryState {
    /// A task that has not been attempted yet, under a policy of at most
    /// `max_attempts` handler runs.
    pub fn new(max_attempts: u32) -> (r: TaskRetryState)
        ensures
            r.attempts_made == 0,
            r.max_attempts == max_attempts,
    {
        TaskRetryState { attempts_made: 0, max_attempts }
    }

    /// Record the outcome of one handler attempt and pick the loop's action.
    /// Success is always acknowledged, whatever the attempt count; a failure
    /// is requeued until the attempt just made reaches the bound, and then
    /// recorded with its error.
    pub fn record_outcome(&mut self, outcome: &Result<(), WorkerError>) -> (a: LoopAction)
        requires
            old(self).attempts_made < u32::MAX,
        ensures
            final(self).max_attempts == old(self).max_attempts,
            final(self).attempts_made == old(self).attempts_made + 1,
            a == spec_decide(*outcome, final(self).attempts_made, old(self).max_attempts),
            outcome is Ok ==> a == LoopAction::Acknowledge,
            a is Requeue ==> final(self).attempts_made < final(self).max_attempts,
    {
        self.attempts_made = self.attempts_made + 1;
        match outcome {
            Ok(()) => LoopAction::Acknowledge,
            Err(e) => if self.attempts_made < self.max_attempts {
                LoopAction::Requeue
            } else {
                LoopAction::RecordFailure(*e)
            },
        }
    }
}

/// The status the loop persists for an action, if any: only a recorded
/// permanent failure writes a status, and the status it writes is `Errored`
/// with that attempt's error. Acknowledging and requeueing write none — in
/// particular, no path through the loop itself ever writes `Completed`.
pub fn status_for_action(a: &LoopAction) -> (s: Option<FileTaskStatus>)
    ensures
        a matches LoopAction::RecordFailure(e) ==> s == Some(FileTaskStatus::Errored(*e)),
        !(a is RecordFailure) ==> s is None,
{
    match a {
        LoopAction::RecordFailure(e) => Some(FileTaskStatus::Errored(*e)),
        _ => None,
    }
}

/// However many attempts a failing task has consumed, the policy answers
/// with one of acknowledge, requeue or record-failure — there is no action
/// that stops the loop, so no single task's failure can terminate it. And a
/// recorded failure carries exactly the error of the attempt it ends.
pub proof fn lemma_loop_never_terminates(
    outcome: Result<(), WorkerError>,
    attempts_made: u32,
    max_attempts: u32,
)
    ensures
        spec_decide(outcome, attempts_made, max_attempts) is Acknowledge
            || spec_decide(outcome, attempts_made, max_attempts) is Requeue
            || spec_decide(outcome, attempts_made, max_attempts) is RecordFailure,
        outcome matches Err(e) ==> attempts_made >= max_attempts
            ==> spec_decide(outcome, attempts_made, max_attempts) == LoopAction::RecordFailure(e),
{
}

} // verus!
