//! The bounded worker pool's admission model: at most `capacity` executions
//! run at once, at most `queue_bound` submissions wait behind them, and any
//! further submission is rejected at once rather than held.

use vstd::prelude::*;

verus! {

/// What became of one submission.
#[derive(PartialEq, Eq, Structural, Clone, Copy, Debug)]
pub enum SubmitOutcome {
    /// A free slot took the work; it runs now.
    Started,
    /// All slots busy; the work waits in the bounded queue.
    Enqueued,
    /// Slots and queue full; the work is refused at once.
    Rejected,
}

/// The admission state of the worker pool. The pool itself only counts: the
/// work units and their threads live with the caller.
pub struct WorkerPool {
    pub capacity: usize,
    pub queue_bound: usize,
    pub running: usize,
    pub queued: usize,
}

impl WorkerPool {
    /// The counts respect the bounds, and nothing waits while a slot is free.
    pub open spec fn wf(self) -> bool {
        &&& self.capacity >= 1
        &&& self.running <= self.capacity
        &&& self.queued <= self.queue_bound
        &&& (self.queued > 0 ==> self.running == self.capacity)
    }

    /// What one submission does to the pool, and its outcome.
    pub open spec fn submit_transition(self) -> (WorkerPool, SubmitOutcome) {
        if self.running < self.capacity {
            (WorkerPool { running: (self.running + 1) as usize, ..self }, SubmitOutcome::Started)
        } else if self.queued < self.queue_bound {
            (WorkerPool { queued: (self.queued + 1) as usize, ..self }, SubmitOutcome::Enqueued)
        } else {
            (self, SubmitOutcome::Rejected)
        }
    }

    /// What the end of one running execution does to the pool: a waiting
    /// submission, if any, takes the freed slot at once.
    pub open spec fn complete_transition(self) -> WorkerPool {
        if self.queued > 0 {
            WorkerPool { queued: (self.queued - 1) as usize, ..self }
        } else {
            WorkerPool { running: (self.running - 1) as usize, ..self }
        }
    }

    /// An idle pool with the given bounds.
    pub fn new(capacity: usize, queue_bound: usize) -> (r: WorkerPool)
        requires
            capacity >= 1,
        ensures
            r.wf(),
            r.capacity == capacity,
            r.queue_bound == queue_bound,
            r.running == 0,
            r.queued == 0,
    {
        WorkerPool { capacity, queue_bound, running: 0, queued: 0 }
    }

    /// Admits one submission, or rejects it at once when slots and queue are
    /// both full.
    pub fn try_submit(&mut self) -> (r: SubmitOutcome)
        requires
            old(self).wf(),
        ensures
            (*final(self), r) == old(self).submit_transition(),
            final(self).wf(),
    {
        if self.running < self.capacity {
            self.running = self.running + 1;
            SubmitOutcome::Started
        } else if self.queued < self.queue_bound {
            self.queued = self.queued + 1;
            SubmitOutcome::Enqueued
        } else {
            SubmitOutcome::Rejected
        }
    }

    /// Records that one running execution finished; a waiting submission, if
    /// any, takes the freed slot.
    pub fn complete(&mut self)
        requires
            old(self).wf(),
            old(self).running >= 1,
        ensures
            *final(self) == old(self).complete_transition(),
            final(self).wf(),
    {
        if self.queued > 0 {
            self.queued = self.queued - 1;
        } else {
            self.running = self.running - 1;
        }
    }

}

/// The pool after `n` submissions, none of which has completed yet.
pub open spec fn after_submits(p: WorkerPool, n: nat) -> WorkerPool
    decreases n,
{
    if n == 0 {
        p
    } else {
        after_submits(p, (n - 1) as nat).submit_transition().0
    }
}

/// The outcome of the `n + 1`-th submission, counted from pool state `p`.
pub open spec fn outcome_at(p: WorkerPool, n: nat) -> SubmitOutcome {
    after_submits(p, n).submit_transition().1
}

/// Submissions change no bound, and while none completes the admitted count
/// only grows.
proof fn lemma_after_submits_shape(p: WorkerPool, n: nat)
    requires
        p.wf(),
    ensures
        after_submits(p, n).wf(),
        after_submits(p, n).capacity == p.capacity,
        after_submits(p, n).queue_bound == p.queue_bound,
        after_submits(p, n).running >= p.running,
        after_submits(p, n).running + after_submits(p, n).queued <= p.running
            + p.queued + n,
    decreases n,
{
    if n > 0 {
        lemma_after_submits_shape(p, (n - 1) as nat);
    }
}

/// Concurrency within capacity: starting from an idle pool, each of `k`
/// submissions with `k <= capacity` is `Started` — every one of them holds a
/// slot of its own at once, none waits behind another.
pub proof fn lemma_within_capacity_all_start(p: WorkerPool, k: nat)
    requires
        p.wf(),
        p.running == 0,
        p.queued == 0,
        k <= p.capacity,
    ensures
        forall|j: nat| j < k ==> outcome_at(p, j) == SubmitOutcome::Started,
        after_submits(p, k).running == k,
        after_submits(p, k).queued == 0,
    decreases k,
{
    if k > 0 {
        lemma_within_capacity_all_start(p, (k - 1) as nat);
        lemma_after_submits_shape(p, (k - 1) as nat);
        assert(outcome_at(p, (k - 1) as nat) == SubmitOutcome::Started);
        assert(forall|j: nat|
            j < k ==> outcome_at(p, j) == SubmitOutcome::Started) by {
            assert(forall|j: nat| j < (k - 1) as nat ==> outcome_at(p, j)
                == SubmitOutcome::Started);
        }
    }
}

/// Saturation fails fast: starting from an idle pool, once
/// `capacity + queue_bound` submissions are in flight, every further
/// submission is `Rejected` and leaves the pool exactly as it was — the
/// excess never hangs and never grows the queue.
pub proof fn lemma_overload_rejected(p: WorkerPool, n: nat)
    requires
        p.wf(),
        p.running == 0,
        p.queued == 0,
        n >= p.capacity + p.queue_bound,
    ensures
        outcome_at(p, n) == SubmitOutcome::Rejected,
        after_submits(p, n + 1) == after_submits(p, n),
        after_submits(p, n).running == p.capacity,
        after_submits(p, n).queued == p.queue_bound,
    decreases n,
{
    lemma_full_after_exact(p);
    lemma_stays_full(p, p.capacity as nat + p.queue_bound as nat, n);
}

/// After exactly `capacity + queue_bound` submissions from idle, slots and
/// queue are both full.
proof fn lemma_full_after_exact(p: WorkerPool)
    requires
        p.wf(),
        p.running == 0,
        p.queued == 0,
    ensures
        after_submits(p, p.capacity as nat + p.queue_bound as nat).running
            == p.capacity,
        after_submits(p, p.capacity as nat + p.queue_bound as nat).queued
            == p.queue_bound,
        after_submits(p, p.capacity as nat + p.queue_bound as nat).capacity
            == p.capacity,
        after_submits(p, p.capacity as nat + p.queue_bound as nat).queue_bound
            == p.queue_bound,
{
    lemma_within_capacity_all_start(p, p.capacity as nat);
    lemma_after_submits_shape(p, p.capacity as nat);
    lemma_fills_queue(p, after_submits(p, p.capacity as nat), p.queue_bound as nat);
    lemma_after_submits_add(p, p.capacity as nat, p.queue_bound as nat);
}

/// From a pool whose slots are all busy, `m <= queue_bound - queued` further
/// submissions all queue up.
proof fn lemma_fills_queue(orig: WorkerPool, q: WorkerPool, m: nat)
    requires
        q.wf(),
        q.running == q.capacity,
        m + q.queued <= q.queue_bound,
    ensures
        after_submits(q, m).wf(),
        after_submits(q, m).running == q.capacity,
        after_submits(q, m).queued == q.queued + m,
        after_submits(q, m).capacity == q.capacity,
        after_submits(q, m).queue_bound == q.queue_bound,
    decreases m,
{
    if m > 0 {
        lemma_fills_queue(orig, q, (m - 1) as nat);
    }
}

/// Submission counts compose: `a + b` submissions are `b` submissions after `a`.
proof fn lemma_after_submits_add(p: WorkerPool, a: nat, b: nat)
    ensures
        after_submits(p, a + b) == after_submits(after_submits(p, a), b),
    decreases b,
{
    if b > 0 {
        lemma_after_submits_add(p, a, (b - 1) as nat);
    }
}

/// A full pool rejects every further submission unchanged, from the
/// `full`-th submission on.
proof fn lemma_stays_full(p: WorkerPool, full: nat, n: nat)
    requires
        after_submits(p, full).wf(),
        after_submits(p, full).running == after_submits(p, full).capacity,
        after_submits(p, full).queued == after_submits(p, full).queue_bound,
        n >= full,
    ensures
        after_submits(p, n) == after_submits(p, full),
        outcome_at(p, n) == SubmitOutcome::Rejected,
        after_submits(p, n + 1) == after_submits(p, n),
    decreases n - full,
{
    if n > full {
        lemma_stays_full(p, full, (n - 1) as nat);
    }
}

} // verus!
