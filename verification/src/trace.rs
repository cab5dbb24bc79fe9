//! A history model of the outstanding-job counter, with the barrier's
//! guarantees proved over it.
//!
//! A run of the pool, as far as the counter is concerned, is a sequence
//! of operations: `Start` when a job is submitted, `Finish` when a
//! worker completes one, `Join` when a thread observes the barrier.
//! `count_after` replays such a history; the lemmas below relate what a
//! barrier wait observes to how many jobs have been submitted and
//! finished.

use vstd::prelude::*;

verus! {

/// One event in the life of a pool's counter.
pub enum PoolOp {
    /// A job was submitted: `ThreadPoolInner::start_job`.
    Start,
    /// A job finished: `ThreadPoolInner::finish_job`.
    Finish,
    /// A thread checked the barrier: `ThreadPoolInner::wait_empty`.
    Join,
}

/// How one operation moves the counter.
pub open spec fn op_delta(op: PoolOp) -> int {
    match op {
        PoolOp::Start => 1,
        PoolOp::Finish => -1,
        PoolOp::Join => 0,
    }
}

/// The counter after replaying a history, starting from the fresh
/// pool's zero.
pub open spec fn count_after(ops: Seq<PoolOp>) -> int
    decreases ops.len(),
{
    if ops.len() == 0 {
        0
    } else {
        count_after(ops.drop_last()) + op_delta(ops.last())
    }
}

/// How many jobs the history submitted.
pub open spec fn starts(ops: Seq<PoolOp>) -> int
    decreases ops.len(),
{
    if ops.len() == 0 {
        0
    } else {
        starts(ops.drop_last()) + if ops.last() is Start { 1int } else { 0int }
    }
}

/// How many jobs the history finished.
pub open spec fn finishes(ops: Seq<PoolOp>) -> int
    decreases ops.len(),
{
    if ops.len() == 0 {
        0
    } else {
        finishes(ops.drop_last()) + if ops.last() is Finish { 1int } else { 0int }
    }
}

/// A history the pool can actually produce: a job finishes only while
/// the counter is positive (each `Finish` answers one earlier `Start`,
/// as `finish_job`'s precondition demands).
pub open spec fn valid_trace(ops: Seq<PoolOp>) -> bool
    decreases ops.len(),
{
    if ops.len() == 0 {
        true
    } else {
        valid_trace(ops.drop_last())
            && (ops.last() is Finish ==> count_after(ops.drop_last()) > 0)
    }
}

/// Conservation: the counter is exactly the number of submitted jobs
/// not yet finished.
pub proof fn lemma_count_is_starts_minus_finishes(ops: Seq<PoolOp>)
    ensures
        count_after(ops) == starts(ops) - finishes(ops),
    decreases ops.len(),
{
    if ops.len() > 0 {
        lemma_count_is_starts_minus_finishes(ops.drop_last());
    }
}

/// In a history the pool can produce, the counter never goes negative
/// and no more jobs finish than were submitted.
pub proof fn lemma_valid_trace_nonnegative(ops: Seq<PoolOp>)
    requires
        valid_trace(ops),
    ensures
        count_after(ops) >= 0,
        finishes(ops) <= starts(ops),
    decreases ops.len(),
{
    if ops.len() > 0 {
        lemma_valid_trace_nonnegative(ops.drop_last());
    }
    lemma_count_is_starts_minus_finishes(ops);
}

/// The barrier blocks while work is outstanding: as long as some
/// submitted job has not finished, the counter is positive, so
/// `wait_empty` answers `false` and a joining thread keeps waiting.
pub proof fn lemma_join_waits_for_all(ops: Seq<PoolOp>)
    requires
        finishes(ops) < starts(ops),
    ensures
        count_after(ops) > 0,
{
    lemma_count_is_starts_minus_finishes(ops);
}

/// The barrier releases no earlier than completion: when a joining
/// thread observes the zero count, every job submitted in the history
/// has finished.
pub proof fn lemma_empty_means_all_finished(ops: Seq<PoolOp>)
    requires
        count_after(ops) == 0,
    ensures
        finishes(ops) == starts(ops),
{
    lemma_count_is_starts_minus_finishes(ops);
}

/// Observing the barrier is free of side effects: a `Join` leaves the
/// counter and both tallies exactly as they were, and keeps the history
/// producible.
pub proof fn lemma_join_changes_nothing(ops: Seq<PoolOp>)
    ensures
        count_after(ops.push(PoolOp::Join)) == count_after(ops),
        starts(ops.push(PoolOp::Join)) == starts(ops),
        finishes(ops.push(PoolOp::Join)) == finishes(ops),
        valid_trace(ops) ==> valid_trace(ops.push(PoolOp::Join)),
{
    assert(ops.push(PoolOp::Join).drop_last() =~= ops);
}

/// The barrier is idempotent and repeatable: once a join has observed
/// the empty pool, joining again at once — with no new work in between —
/// observes it empty again, and no job has been submitted or run a
/// second time on its account.
pub proof fn lemma_join_idempotent(ops: Seq<PoolOp>)
    requires
        count_after(ops) == 0,
    ensures
        count_after(ops.push(PoolOp::Join)) == 0,
        count_after(ops.push(PoolOp::Join).push(PoolOp::Join)) == 0,
        starts(ops.push(PoolOp::Join).push(PoolOp::Join)) == starts(ops),
        finishes(ops.push(PoolOp::Join).push(PoolOp::Join)) == finishes(ops),
{
    lemma_join_changes_nothing(ops);
    lemma_join_changes_nothing(ops.push(PoolOp::Join));
}

} // verus!
