//! The job queue: submission and the worker's receive, with the
//! channel's handles behind trusted declarations.
//!
//! The queue is an unbounded multi-producer multi-consumer channel of
//! `crossbeam_channel`. Its handles are opaque to the verifier — what
//! the channel holds at any instant is a race among every producer and
//! every worker, so nothing is stated of it — and each contract here
//! says only what holds of every outcome of a call.

use vstd::prelude::*;

use crate::pool::RecvOutcome;
use crate::pool::ThreadPoolInner;
use crate::pool::WorkerState;
use crate::pool::worker_step;
use crate::trace::PoolOp;

verus! {

/// `crossbeam_channel`'s sending handle, declared so that it can stand
/// in signatures; the verifier sees nothing inside it.
#[verifier::external_type_specification]
#[verifier::external_body]
#[verifier::reject_recursive_types(T)]
pub struct ExSender<T>(crossbeam_channel::Sender<T>);

/// `crossbeam_channel`'s receiving handle, declared likewise.
#[verifier::external_type_specification]
#[verifier::external_body]
#[verifier::reject_recursive_types(T)]
pub struct ExReceiver<T>(crossbeam_channel::Receiver<T>);

/// Relies on `crossbeam_channel::Sender::send`: on a channel of
/// unbounded capacity it never blocks; it takes ownership of the
/// message and fails only when every receiving handle has been dropped.
/// Whether that has happened is decided by other threads, so nothing is
/// promised of the result.
#[verifier::external_body]
fn send_job<T>(sender: &crossbeam_channel::Sender<T>, job: T) -> (delivered: bool) {
    sender.send(job).is_ok()
}

/// Relies on `crossbeam_channel::Receiver::recv`: blocks until a
/// message arrives, and returns `None` only once the channel is closed
/// (every sender dropped) and drained. Whether and when a message
/// arrives is decided by other threads, so nothing is promised of the
/// result.
#[verifier::external_body]
fn recv_job<T>(receiver: &crossbeam_channel::Receiver<T>) -> (job: Option<T>) {
    match receiver.recv() {
        Ok(job) => Some(job),
        Err(_) => None,
    }
}

/// Submit one job: count it as outstanding, then hand it to the queue.
///
/// The count moves first, before the job becomes visible to any worker,
/// so that a concurrent barrier wait can never observe a false "empty"
/// state for work that is about to be enqueued. The caller must treat
/// `false` — the queue's receiving side is gone while the pool still
/// exists — as a fatal internal error, as the pool does.
pub fn submit_job<T>(
    inner: &mut ThreadPoolInner,
    sender: &crossbeam_channel::Sender<T>,
    job: T,
) -> (delivered: bool)
    requires
        old(inner).outstanding() < usize::MAX,
    ensures
        final(inner).outstanding() == old(inner).outstanding() + 1,
        final(inner).history() == old(inner).history().push(PoolOp::Start),
{
    inner.start_job();
    send_job(sender, job)
}

/// One turn of a running worker's receive loop, up to the running of
/// the job: block for the next job and step the worker's state machine
/// on the outcome.
///
/// The worker stays `Running` exactly when a job was delivered — the
/// returned job, which the caller must now run and then count finished —
/// and is `Terminated` exactly when the queue was closed and drained,
/// with no job to run.
pub fn worker_recv<T>(
    receiver: &crossbeam_channel::Receiver<T>,
    state: WorkerState,
) -> (r: (WorkerState, Option<T>))
    requires
        state is Running,
    ensures
        r.0 is Running <==> r.1 is Some,
        r.0 is Terminated <==> r.1 is None,
{
    let job = recv_job(receiver);
    let outcome = if job.is_some() {
        RecvOutcome::Delivered
    } else {
        RecvOutcome::Closed
    };
    let next = worker_step(state, outcome);
    (next, job)
}

} // verus!
