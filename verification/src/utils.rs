//! The cancellable background-task slot. One slot owns at most one in-flight
//! operation; the runtime launches the operation and later hands its result
//! back under the ticket the start returned. A result is observed at most
//! once, and a result delivered after an abort, or under a stale ticket, is
//! discarded rather than delivered.

use vstd::prelude::*;

verus! {

enum TaskPhase<T> {
    Idle,
    Running,
    Done(T),
}

/// A task slot: idle, waiting on the operation started under `epoch`, or
/// holding a result that has not been observed yet.
pub struct AsyncTask<T> {
    epoch: u64,
    phase: TaskPhase<T>,
}

/// The ticket a slot at ticket `t` hands out on its next start.
pub open spec fn next_ticket(t: u64) -> u64 {
    if t == u64::MAX {
        0
    } else {
        (t + 1) as u64
    }
}

impl<T> AsyncTask<T> {
    pub closed spec fn is_idle(&self) -> bool {
        self.phase is Idle
    }

    pub closed spec fn is_running(&self) -> bool {
        self.phase is Running
    }

    pub closed spec fn is_done(&self) -> bool {
        self.phase is Done
    }

    pub closed spec fn done_value(&self) -> T
        recommends
            self.is_done(),
    {
        self.phase->Done_0
    }

    pub closed spec fn ticket(&self) -> u64 {
        self.epoch
    }

    /// Active means a started operation's result has neither been observed
    /// nor discarded by an abort.
    pub open spec fn is_active_spec(&self) -> bool {
        self.is_running() || self.is_done()
    }

    /// What starting does to a slot: it waits for a fresh ticket.
    pub open spec fn started(pre: &Self, post: &Self) -> bool {
        &&& post.is_running()
        &&& !post.is_idle()
        &&& !post.is_done()
        &&& post.ticket() == next_ticket(pre.ticket())
    }

    /// What delivering a result under a ticket does to a slot: the result
    /// lands only if the slot still waits under that very ticket; a stale or
    /// unexpected delivery changes nothing.
    pub open spec fn delivered(pre: &Self, post: &Self, ticket: u64, value: T) -> bool {
        if pre.is_running() && pre.ticket() == ticket {
            &&& post.is_done()
            &&& !post.is_idle()
            &&& !post.is_running()
            &&& post.done_value() == value
            &&& post.ticket() == pre.ticket()
        } else {
            post == pre
        }
    }

    /// What polling does to a slot: a held result is returned and the slot
    /// goes idle; otherwise nothing is returned and nothing changes.
    pub open spec fn polled(pre: &Self, post: &Self, r: Option<T>) -> bool {
        if pre.is_done() {
            &&& r == Some(pre.done_value())
            &&& post.is_idle()
            &&& !post.is_running()
            &&& !post.is_done()
            &&& post.ticket() == pre.ticket()
        } else {
            &&& r is None
            &&& post == pre
        }
    }

    /// What aborting does to a slot: it goes idle, and reports whether it was
    /// active. Its ticket is kept, so a late delivery under it still finds
    /// the slot idle and is discarded.
    pub open spec fn aborted(pre: &Self, post: &Self, r: bool) -> bool {
        &&& post.is_idle()
        &&& !post.is_running()
        &&& !post.is_done()
        &&& post.ticket() == pre.ticket()
        &&& r == pre.is_active_spec()
    }

    pub fn new() -> (t: AsyncTask<T>)
        ensures
            t.is_idle(),
            !t.is_running(),
            !t.is_done(),
            !t.is_active_spec(),
    {
        AsyncTask { epoch: 0, phase: TaskPhase::Idle }
    }

    /// Makes the slot wait for one freshly launched operation and returns the
    /// ticket under which its result must be delivered. Starting over a still
    /// pending operation discards that operation's eventual result.
    pub fn start(&mut self) -> (ticket: u64)
        ensures
            Self::started(old(self), final(self)),
            ticket == final(self).ticket(),
    {
        self.epoch = if self.epoch == u64::MAX {
            0
        } else {
            self.epoch + 1
        };
        self.phase = TaskPhase::Running;
        self.epoch
    }

    pub fn is_active(&self) -> (r: bool)
        ensures
            r == self.is_active_spec(),
    {
        match self.phase {
            TaskPhase::Idle => false,
            TaskPhase::Running => true,
            TaskPhase::Done(_) => true,
        }
    }

    /// Called by the runtime when the operation launched under `ticket` has
    /// produced `value`.
    pub fn complete(&mut self, ticket: u64, value: T)
        ensures
            Self::delivered(old(self), final(self), ticket, value),
    {
        if self.epoch == ticket {
            match self.phase {
                TaskPhase::Running => {
                    self.phase = TaskPhase::Done(value);
                },
                _ => {},
            }
        }
    }

    /// Non-blocking poll: yields the result exactly once.
    pub fn try_ready(&mut self) -> (r: Option<T>)
        ensures
            Self::polled(old(self), final(self), r),
    {
        let mut taken = TaskPhase::Idle;
        core::mem::swap(&mut taken, &mut self.phase);
        match taken {
            TaskPhase::Done(value) => Some(value),
            other => {
                self.phase = other;
                None
            },
        }
    }

    /// Cancels the pending operation, if any, discarding a result already
    /// held; returns whether something was actually cancelled.
    pub fn abort(&mut self) -> (r: bool)
        ensures
            Self::aborted(old(self), final(self), r),
    {
        let was_active = self.is_active();
        self.phase = TaskPhase::Idle;
        was_active
    }
}

/// Law: a freshly started task has no result yet, and once its operation's
/// result is delivered under the ticket of the start, polling returns that
/// result exactly once: the first poll after the start yields nothing, the
/// first poll after the delivery yields the value, and a second poll after
/// that yields nothing again.
pub proof fn lemma_result_observed_exactly_once<T>(
    t0: AsyncTask<T>,
    t1: AsyncTask<T>,
    t2: AsyncTask<T>,
    t3: AsyncTask<T>,
    t4: AsyncTask<T>,
    t5: AsyncTask<T>,
    early: Option<T>,
    value: T,
    first: Option<T>,
    second: Option<T>,
)
    requires
        AsyncTask::started(&t0, &t1),
        AsyncTask::polled(&t1, &t2, early),
        AsyncTask::delivered(&t2, &t3, t1.ticket(), value),
        AsyncTask::polled(&t3, &t4, first),
        AsyncTask::polled(&t4, &t5, second),
    ensures
        early is None,
        first == Some(value),
        second is None,
{
}

/// Law: aborting an active task deactivates it at once, and a result its
/// operation delivers afterwards, under the ticket of the start, is
/// discarded: a later poll still yields nothing.
pub proof fn lemma_abort_suppresses_late_result<T>(
    t0: AsyncTask<T>,
    t1: AsyncTask<T>,
    t2: AsyncTask<T>,
    t3: AsyncTask<T>,
    t4: AsyncTask<T>,
    cancelled: bool,
    value: T,
    late: Option<T>,
)
    requires
        AsyncTask::started(&t0, &t1),
        AsyncTask::aborted(&t1, &t2, cancelled),
        AsyncTask::delivered(&t2, &t3, t1.ticket(), value),
        AsyncTask::polled(&t3, &t4, late),
    ensures
        cancelled,
        !t2.is_active_spec(),
        !t3.is_active_spec(),
        late is None,
{
}

} // verus!
