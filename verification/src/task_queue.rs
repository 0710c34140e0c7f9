//! The task queue's decision core: tasks batched behind a single scheduled
//! run.
//!
//! The host side owns the task callables and the microtask that runs them;
//! this core tracks how many tasks are queued and whether a run is already
//! scheduled, so that any number of queued tasks before the run costs exactly
//! one scheduling.

use vstd::prelude::*;

verus! {

/// A batch of queued tasks with at most one pending run.
pub struct TaskQueue {
    pending: usize,
    update_scheduled: bool,
}

impl TaskQueue {
    /// How many tasks are queued for the next run.
    pub closed spec fn spec_pending(&self) -> nat {
        self.pending as nat
    }

    /// Whether a run is already scheduled.
    pub closed spec fn spec_scheduled(&self) -> bool {
        self.update_scheduled
    }

    /// An empty queue with no run scheduled.
    pub fn new() -> (r: Self)
        ensures
            r.spec_pending() == 0,
            !r.spec_scheduled(),
    {
        TaskQueue { pending: 0, update_scheduled: false }
    }

    /// Queues one task. Returns whether the caller must schedule a run: true
    /// exactly when none was scheduled yet.
    pub fn queue(&mut self) -> (schedule: bool)
        requires
            old(self).spec_pending() < usize::MAX,
        ensures
            final(self).spec_pending() == old(self).spec_pending() + 1,
            final(self).spec_scheduled(),
            schedule == !old(self).spec_scheduled(),
    {
        self.pending = self.pending + 1;
        let schedule = !self.update_scheduled;
        self.update_scheduled = true;
        schedule
    }

    /// Marks the scheduled run as done: returns how many tasks the host must
    /// now run, and empties the batch.
    pub fn run_tasks(&mut self) -> (n: usize)
        ensures
            n as nat == old(self).spec_pending(),
            final(self).spec_pending() == 0,
            !final(self).spec_scheduled(),
    {
        self.update_scheduled = false;
        let n = self.pending;
        self.pending = 0;
        n
    }
}

} // verus!
