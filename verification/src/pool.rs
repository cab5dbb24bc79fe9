//! The outstanding-job counter and the worker state machine.
//!
//! `ThreadPoolInner` is the state that the pool and every worker share:
//! a count of jobs that have been submitted and have not yet finished.
//! At run time one instance sits behind a mutex paired with a condition
//! variable; each method here is one critical section's worth of logic,
//! performed while the lock is held. The blocking itself (waiting on the
//! condition variable, waking the waiters) is the caller's job; the
//! methods return the decisions that drive it.

use vstd::prelude::*;

use crate::trace::PoolOp;
use crate::trace::count_after;
use crate::trace::finishes;
use crate::trace::lemma_count_is_starts_minus_finishes;
use crate::trace::starts;
use crate::trace::valid_trace;

verus! {

/// Shared record of how many jobs are outstanding: submitted by
/// `execute` and not yet finished by a worker.
///
/// The count carries its own history as a ghost trace: every submission
/// pushes a [`PoolOp::Start`], every completion a [`PoolOp::Finish`],
/// and the type invariant ties the count to that history. The count
/// moves by exactly `+1` per submitted job (before the job becomes
/// visible to any worker) and exactly `-1` once that job has finished,
/// so it is never negative and reaches zero exactly when every job the
/// history submitted has finished.
pub struct ThreadPoolInner {
    job_count: usize,
    history: Ghost<Seq<PoolOp>>,
}

impl ThreadPoolInner {
    /// The number of jobs submitted and not yet finished.
    pub closed spec fn outstanding(&self) -> nat {
        self.job_count as nat
    }

    /// Everything that has happened to this counter, oldest first.
    pub closed spec fn history(&self) -> Seq<PoolOp> {
        self.history@
    }

    /// The count is the history replayed, and the history is one the
    /// pool can produce: no job finishes that was not started.
    #[verifier::type_invariant]
    spec fn wf(&self) -> bool {
        &&& self.job_count == count_after(self.history@)
        &&& valid_trace(self.history@)
    }

    /// A fresh pool has no outstanding work and an empty history.
    pub fn new() -> (inner: ThreadPoolInner)
        ensures
            inner.outstanding() == 0,
            inner.history() == Seq::<PoolOp>::empty(),
    {
        ThreadPoolInner { job_count: 0, history: Ghost(Seq::empty()) }
    }

    /// Record that one more job has been submitted.
    ///
    /// Called once per `execute`, before the job is handed to the queue,
    /// so that a concurrent barrier wait can never observe a false
    /// "empty" state for work that is about to be enqueued. Afterward
    /// some submitted job is necessarily unfinished, so the barrier
    /// holds nobody back from waiting for this one.
    pub fn start_job(&mut self)
        requires
            old(self).outstanding() < usize::MAX,
        ensures
            final(self).outstanding() == old(self).outstanding() + 1,
            final(self).history() == old(self).history().push(PoolOp::Start),
            finishes(final(self).history()) < starts(final(self).history()),
    {
        proof {
            use_type_invariant(&*self);
            assert(self.history@.push(PoolOp::Start).drop_last() =~= self.history@);
            lemma_count_is_starts_minus_finishes(self.history@.push(PoolOp::Start));
        }
        let count = self.job_count;
        let ghost extended = self.history@.push(PoolOp::Start);
        *self = ThreadPoolInner { job_count: count + 1, history: Ghost(extended) };
    }

    /// Record that one job has finished, successfully or by panicking.
    ///
    /// Called once per job by the worker that ran it. Returns whether
    /// the count has just reached zero; on `true` every job submitted in
    /// the history has finished, and the caller must wake every thread
    /// blocked on the pool's condition variable, since the barrier they
    /// are waiting for has been reached.
    pub fn finish_job(&mut self) -> (now_empty: bool)
        requires
            old(self).outstanding() > 0,
        ensures
            final(self).outstanding() == old(self).outstanding() - 1,
            final(self).history() == old(self).history().push(PoolOp::Finish),
            now_empty <==> final(self).outstanding() == 0,
            now_empty <==> finishes(final(self).history()) == starts(final(self).history()),
    {
        proof {
            use_type_invariant(&*self);
            assert(self.history@.push(PoolOp::Finish).drop_last() =~= self.history@);
            lemma_count_is_starts_minus_finishes(self.history@.push(PoolOp::Finish));
        }
        let count = self.job_count;
        let ghost extended = self.history@.push(PoolOp::Finish);
        *self = ThreadPoolInner { job_count: count - 1, history: Ghost(extended) };
        self.job_count == 0
    }

    /// The condition-variable predicate of the barrier: may a waiter
    /// return, or must it go back to sleep?
    ///
    /// A thread joining the pool acquires the lock and loops: while this
    /// returns `false` it waits on the condition variable (re-checking on
    /// every wakeup guards against spurious wakeups and against a racing
    /// submission). It returns `true` exactly when every job submitted in
    /// the history has finished, and `false` exactly while some job is
    /// still unfinished. It reads the state and changes nothing, so the
    /// barrier is repeatable: with no job activity in between, a second
    /// wait returns the same answer.
    pub fn wait_empty(&self) -> (empty: bool)
        ensures
            empty <==> self.outstanding() == 0,
            empty <==> finishes(self.history()) == starts(self.history()),
    {
        proof {
            use_type_invariant(&*self);
            lemma_count_is_starts_minus_finishes(self.history@);
        }
        self.job_count == 0
    }

    /// The current count, for callers that report or test it.
    pub fn outstanding_jobs(&self) -> (n: usize)
        ensures
            n == self.outstanding(),
    {
        self.job_count
    }
}

impl Default for ThreadPoolInner {
    /// Same as `ThreadPoolInner::new`: no outstanding work.
    fn default() -> (inner: ThreadPoolInner)
        ensures
            inner.outstanding() == 0,
            inner.history() == Seq::<PoolOp>::empty(),
    {
        ThreadPoolInner::new()
    }
}

/// What a worker's blocking receive on the job queue reported.
pub enum RecvOutcome {
    /// A job was delivered; the worker now owns it and must run it, then
    /// record it finished (also if it panicked, as the thread unwinds).
    Delivered,
    /// The queue is closed and drained: the sending side is gone and no
    /// job remains.
    Closed,
}

/// A worker thread's phase.
pub enum WorkerState {
    /// Looping: blocked on the queue or running a job.
    Running,
    /// The receive loop has been left; the thread is ending.
    Terminated,
}

/// One step of the worker state machine: a running worker reacts to the
/// outcome of its blocking receive.
///
/// On a delivered job the worker keeps running (it runs exactly the
/// delivered job, then counts it finished); on a closed queue it
/// terminates. These are the only transitions: a worker never drops a
/// delivered job and never terminates while the queue is open.
pub fn worker_step(state: WorkerState, outcome: RecvOutcome) -> (next: WorkerState)
    requires
        state is Running,
    ensures
        next is Running <==> outcome is Delivered,
        next is Terminated <==> outcome is Closed,
{
    match outcome {
        RecvOutcome::Delivered => WorkerState::Running,
        RecvOutcome::Closed => WorkerState::Terminated,
    }
}

} // verus!
