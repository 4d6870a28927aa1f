//! Bounded-concurrency accounting for the job scheduler.
//!
//! The scheduler dispatches one solve job per input file onto a fixed-size
//! set of worker slots. `JobScheduler` is the decision core of that loop:
//! it accounts for how many jobs are waiting, running and reported, decides
//! when a queued job may start, and knows when every job has been reported.
//! The loop that actually hands jobs to worker threads and carries results
//! back over a channel performs each decision this type allows.

use vstd::prelude::*;

verus! {

/// The dispatch state of one run: how many jobs are still queued, how many
/// engine sessions are active, and how many results were already reported.
#[derive(Clone, Copy, Debug)]
pub struct JobScheduler {
    /// Number of worker slots; at most this many jobs run at once.
    pub workers: usize,
    /// Jobs not yet started.
    pub pending: usize,
    /// Jobs started and not yet finished: one active engine session each.
    pub running: usize,
    /// Jobs finished and reported exactly once.
    pub reported: usize,
}

impl JobScheduler {
    /// The bound the scheduler exists to keep: never more active sessions
    /// than worker slots.
    pub open spec fn wf(self) -> bool {
        self.running <= self.workers
    }

    /// Every job is queued, running or reported; nothing is duplicated or
    /// dropped, so the three counts always sum to the job total.
    pub open spec fn total(self) -> int {
        self.pending + self.running + self.reported
    }

    /// A fresh scheduler: every job queued, no session active, nothing
    /// reported.
    pub fn new(workers: usize, jobs: usize) -> (s: Self)
        ensures
            s.wf(),
            s.workers == workers,
            s.pending == jobs,
            s.running == 0,
            s.reported == 0,
            s.total() == jobs,
    {
        JobScheduler { workers, pending: jobs, running: 0, reported: 0 }
    }

    /// Whether a queued job may start now: one must be waiting and a worker
    /// slot must be free.
    pub open spec fn spec_can_start(self) -> bool {
        self.pending > 0 && self.running < self.workers
    }

    /// Start the next queued job if a worker slot is free. Returns whether
    /// one started; the bound on active sessions is kept either way.
    pub fn try_start(&mut self) -> (started: bool)
        requires
            old(self).wf(),
        ensures
            final(self).wf(),
            started == old(self).spec_can_start(),
            final(self).workers == old(self).workers,
            final(self).total() == old(self).total(),
            final(self).reported == old(self).reported,
            started ==> final(self).pending == old(self).pending - 1 && final(self).running == old(
                self,
            ).running + 1,
            !started ==> *final(self) == *old(self),
    {
        if self.pending > 0 && self.running < self.workers {
            self.pending = self.pending - 1;
            self.running = self.running + 1;
            true
        } else {
            false
        }
    }

    /// Report one finished job: its engine session is gone and its result
    /// is delivered, freeing a worker slot for the next queued job.
    pub fn finish_job(&mut self)
        requires
            old(self).wf(),
            old(self).running > 0,
            old(self).reported < usize::MAX,
        ensures
            final(self).wf(),
            final(self).workers == old(self).workers,
            final(self).total() == old(self).total(),
            final(self).pending == old(self).pending,
            final(self).running == old(self).running - 1,
            final(self).reported == old(self).reported + 1,
    {
        self.running = self.running - 1;
        self.reported = self.reported + 1;
    }

    /// Whether every job of the run has been reported.
    pub open spec fn spec_all_reported(self, jobs: usize) -> bool {
        self.pending == 0 && self.running == 0 && self.reported == jobs
    }

    /// The collector's exit check: with no job queued or running, every
    /// dispatched job has come back.
    pub fn all_reported(&self, jobs: usize) -> (done: bool)
        requires
            self.total() == jobs,
        ensures
            done == self.spec_all_reported(jobs),
    {
        self.pending == 0 && self.running == 0
    }
}

/// Law: however a run with `jobs` jobs interleaves starts and finishes, at
/// most `workers` engine sessions are ever active at once, and once every
/// job is reported the reported count is exactly `jobs`: no result is
/// duplicated and none is dropped. Both facts hold of every state reachable
/// from a fresh scheduler, since starting and finishing preserve
/// well-formedness and the job total.
pub proof fn lemma_bounded_and_exact(s: JobScheduler, jobs: usize)
    requires
        s.wf(),
        s.total() == jobs,
    ensures
        s.running <= s.workers,
        s.pending == 0 && s.running == 0 ==> s.reported == jobs,
{
}

} // verus!
