//! The bookkeeping model of the bounded worker pool.
//!
//! The pool itself is a set of operating-system threads; what the library
//! owns is every decision the pool makes: whether a submitted job is queued
//! or, under backpressure, run at once on the caller's thread, and the
//! counts that bound it.  The well-formedness invariant carries the pool's
//! central promise: never more jobs executing at once than there are
//! workers, and never more jobs queued than the queue's capacity.

use vstd::prelude::*;

verus! {

/// What the pool decided to do with a submitted job.
#[derive(Clone, Copy, PartialEq, Eq, Structural, Debug)]
pub enum SubmitDecision {
    /// The job entered the queue; a worker will pick it up.
    Enqueued,
    /// The queue is saturated: run the job on the calling thread now,
    /// rather than block the caller indefinitely.
    RunInline,
}

/// The counts that govern the worker pool.
pub struct PoolModel {
    /// Number of workers; fixed at construction, at least one.
    pub workers: usize,
    /// Capacity of the job queue; fixed at construction.
    pub capacity: usize,
    /// Jobs queued and not yet picked up.
    pub queued: usize,
    /// Jobs a worker is executing right now.
    pub executing: usize,
}

impl PoolModel {
    /// Well-formedness: the queue stays within its capacity and no more
    /// jobs execute than there are workers.
    pub open spec fn wf(self) -> bool {
        &&& self.workers >= 1
        &&& self.queued <= self.capacity
        &&& self.executing <= self.workers
    }

    /// A fresh pool: no jobs queued, none executing.  A pool of zero
    /// workers cannot exist.
    pub fn new(workers: usize, capacity: usize) -> (p: PoolModel)
        requires
            workers >= 1,
        ensures
            p.wf(),
            p.workers == workers,
            p.capacity == capacity,
            p.queued == 0,
            p.executing == 0,
    {
        PoolModel { workers, capacity, queued: 0, executing: 0 }
    }

    /// Submission: the job is queued when the queue has room, and run
    /// inline otherwise, so the caller is never blocked on a full queue.
    pub fn submit(&mut self) -> (d: SubmitDecision)
        requires
            old(self).wf(),
        ensures
            final(self).wf(),
            final(self).workers == old(self).workers,
            final(self).capacity == old(self).capacity,
            final(self).executing == old(self).executing,
            if old(self).queued < old(self).capacity {
                d == SubmitDecision::Enqueued && final(self).queued == old(self).queued + 1
            } else {
                d == SubmitDecision::RunInline && final(self).queued == old(self).queued
            },
    {
        if self.queued < self.capacity {
            self.queued = self.queued + 1;
            SubmitDecision::Enqueued
        } else {
            SubmitDecision::RunInline
        }
    }

    /// An idle worker picks a queued job up.  Only an idle worker can, so
    /// fewer jobs than workers must be executing.
    pub fn begin_job(&mut self)
        requires
            old(self).wf(),
            old(self).queued > 0,
            old(self).executing < old(self).workers,
        ensures
            final(self).wf(),
            final(self).workers == old(self).workers,
            final(self).capacity == old(self).capacity,
            final(self).queued == old(self).queued - 1,
            final(self).executing == old(self).executing + 1,
    {
        self.queued = self.queued - 1;
        self.executing = self.executing + 1;
    }

    /// A worker finished its job and went idle.
    pub fn finish_job(&mut self)
        requires
            old(self).wf(),
            old(self).executing > 0,
        ensures
            final(self).wf(),
            final(self).workers == old(self).workers,
            final(self).capacity == old(self).capacity,
            final(self).queued == old(self).queued,
            final(self).executing == old(self).executing - 1,
    {
        self.executing = self.executing - 1;
    }

    /// Law: a well-formed pool never has more jobs executing concurrently
    /// than its configured number of workers; every transition above keeps
    /// the pool well formed, so the bound holds along any run.
    pub proof fn lemma_executing_bounded(self)
        requires
            self.wf(),
        ensures
            self.executing <= self.workers,
    {
    }
}

} // verus!
