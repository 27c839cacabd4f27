use vstd::prelude::*;

verus! {

/// The lifecycle of a pool, as counters: how many workers sit idle on the
/// channel, how many are executing a task, how many have exited their loop,
/// and how many tasks have been submitted, are still pending, or have
/// finished. The threaded shell drives one value of this type through the
/// transitions below, one call per observed event; every invariant of the
/// pool design is a consequence of `wf`, which each transition preserves.
pub struct PoolState {
    /// The configured worker count, fixed at construction.
    pub workers: usize,
    /// Workers blocked on the channel, waiting for a task or for closure.
    pub idle: usize,
    /// Workers currently executing a task.
    pub running: usize,
    /// Workers whose loop has terminated.
    pub exited: usize,
    /// Tasks accepted so far.
    pub submitted: usize,
    /// Tasks accepted but not yet begun by any worker.
    pub pending: usize,
    /// Tasks executed to completion.
    pub finished: usize,
    /// True once teardown has begun: the sending side is gone and no
    /// further submission is possible.
    pub closing: bool,
}

impl PoolState {
    /// Well-formedness: what holds of every reachable pool state.
    ///
    /// Every worker is idle, running or exited; every submitted task is
    /// pending, in execution (one per running worker) or finished; a worker
    /// exits only during teardown, and only once nothing is left pending, so
    /// a fully exited pool has drained everything.
    pub open spec fn wf(&self) -> bool {
        &&& self.workers >= 1
        &&& self.idle + self.running + self.exited == self.workers
        &&& self.submitted == self.pending + self.running + self.finished
        &&& (self.exited > 0 ==> self.closing)
        &&& (self.exited == self.workers ==> self.pending == 0)
    }

    /// A freshly built pool: every worker idle, nothing submitted.
    ///
    /// A pool must have at least one worker; a zero count is rejected before
    /// any state exists (see the pool constructor), so the model starts from
    /// a positive count.
    pub fn new(workers: usize) -> (state: PoolState)
        requires
            workers >= 1,
        ensures
            state.wf(),
            state.workers == workers,
            state.idle == workers,
            state.running == 0,
            state.exited == 0,
            state.submitted == 0,
            state.pending == 0,
            state.finished == 0,
            !state.closing,
    {
        PoolState {
            workers,
            idle: workers,
            running: 0,
            exited: 0,
            submitted: 0,
            pending: 0,
            finished: 0,
            closing: false,
        }
    }

    /// A caller hands one task to the pool. Only possible before teardown.
    pub fn submit(&mut self)
        requires
            old(self).wf(),
            !old(self).closing,
            old(self).submitted < usize::MAX,
        ensures
            final(self).wf(),
            final(self).submitted == old(self).submitted + 1,
            final(self).pending == old(self).pending + 1,
            final(self).finished == old(self).finished,
            final(self).running == old(self).running,
            final(self).idle == old(self).idle,
            final(self).exited == old(self).exited,
            final(self).workers == old(self).workers,
            final(self).closing == old(self).closing,
    {
        self.submitted = self.submitted + 1;
        self.pending = self.pending + 1;
    }

    /// An idle worker takes a pending task off the channel and begins it.
    pub fn start_task(&mut self)
        requires
            old(self).wf(),
            old(self).pending > 0,
            old(self).idle > 0,
        ensures
            final(self).wf(),
            final(self).running == old(self).running + 1,
            final(self).idle == old(self).idle - 1,
            final(self).pending == old(self).pending - 1,
            final(self).submitted == old(self).submitted,
            final(self).finished == old(self).finished,
            final(self).exited == old(self).exited,
            final(self).workers == old(self).workers,
            final(self).closing == old(self).closing,
    {
        self.idle = self.idle - 1;
        self.running = self.running + 1;
        self.pending = self.pending - 1;
    }

    /// A worker runs its task to completion and goes back to waiting.
    pub fn finish_task(&mut self)
        requires
            old(self).wf(),
            old(self).running > 0,
        ensures
            final(self).wf(),
            final(self).running == old(self).running - 1,
            final(self).idle == old(self).idle + 1,
            final(self).finished == old(self).finished + 1,
            final(self).submitted == old(self).submitted,
            final(self).pending == old(self).pending,
            final(self).exited == old(self).exited,
            final(self).workers == old(self).workers,
            final(self).closing == old(self).closing,
    {
        self.running = self.running - 1;
        self.idle = self.idle + 1;
        self.finished = self.finished + 1;
    }

    /// Teardown begins: the sending side is dropped, submission stops.
    pub fn begin_shutdown(&mut self)
        requires
            old(self).wf(),
        ensures
            final(self).wf(),
            final(self).closing,
            *final(self) == (PoolState { closing: true, ..*old(self) }),
    {
        self.closing = true;
    }

    /// An idle worker observes closure and exits its loop. The channel
    /// reports closure only once it is empty, so a worker can exit only
    /// after every pending task has been taken: drain before stop.
    pub fn worker_exit(&mut self)
        requires
            old(self).wf(),
            old(self).closing,
            old(self).idle > 0,
            old(self).pending == 0,
        ensures
            final(self).wf(),
            final(self).exited == old(self).exited + 1,
            final(self).idle == old(self).idle - 1,
            final(self).running == old(self).running,
            final(self).submitted == old(self).submitted,
            final(self).pending == old(self).pending,
            final(self).finished == old(self).finished,
            final(self).workers == old(self).workers,
            final(self).closing == old(self).closing,
    {
        self.idle = self.idle - 1;
        self.exited = self.exited + 1;
    }
}

/// Bounded concurrency: in every well-formed pool state, at most as many
/// tasks are executing as there are configured workers.
pub proof fn lemma_bounded_concurrency(state: PoolState)
    requires
        state.wf(),
    ensures
        state.running <= state.workers,
{
}

/// Clean teardown: once every worker has exited, none remains alive —
/// neither idle on the channel nor executing a task.
pub proof fn lemma_clean_teardown(state: PoolState)
    requires
        state.wf(),
        state.exited == state.workers,
    ensures
        state.idle == 0,
        state.running == 0,
{
}

/// No lost task: once every worker has exited, nothing is pending or in
/// execution, and as many tasks have finished as were ever submitted —
/// teardown drains every accepted task before the workers stop.
pub proof fn lemma_no_lost_task(state: PoolState)
    requires
        state.wf(),
        state.exited == state.workers,
    ensures
        state.pending == 0,
        state.finished == state.submitted,
{
}

} // verus!

