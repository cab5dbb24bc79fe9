//! The counter, the job channel and the worker state machine wired up
//! as the pool wires them, driven to completion on one thread.

use std::cell::Cell;
use std::rc::Rc;

use thread_pool::pool::ThreadPoolInner;
use thread_pool::pool::WorkerState;
use thread_pool::queue::submit_job;
use thread_pool::queue::worker_recv;

type Job = Box<dyn FnOnce()>;

/// Run one worker's receive loop to termination: pull jobs until the
/// channel reports closure, running each delivered job and recording
/// its completion, exactly as the state machine directs.
fn drain(receiver: &crossbeam_channel::Receiver<Job>, inner: &mut ThreadPoolInner) {
    let mut state = WorkerState::Running;
    while matches!(state, WorkerState::Running) {
        let (next_state, job) = worker_recv(receiver, state);
        state = next_state;
        if let Some(job) = job {
            job();
            inner.finish_job();
        }
    }
}

#[test]
fn every_queued_job_runs_before_the_worker_terminates() {
    let mut inner = ThreadPoolInner::new();
    let (sender, receiver) = crossbeam_channel::unbounded::<Job>();

    let ran = Rc::new(Cell::new(0usize));
    for _ in 0..100 {
        let ran = Rc::clone(&ran);
        let delivered = submit_job(
            &mut inner,
            &sender,
            Box::new(move || ran.set(ran.get() + 1)) as Job,
        );
        assert!(delivered);
    }
    assert_eq!(inner.outstanding_jobs(), 100);
    assert!(!inner.wait_empty());

    // Teardown closes the sending side; the worker drains what is
    // queued and only then sees closure and exits. No job is abandoned.
    drop(sender);
    drain(&receiver, &mut inner);

    assert_eq!(ran.get(), 100);
    assert_eq!(inner.outstanding_jobs(), 0);
    assert!(inner.wait_empty());
}

#[test]
fn the_delivered_job_is_the_submitted_one() {
    let mut inner = ThreadPoolInner::new();
    let (sender, receiver) = crossbeam_channel::unbounded::<Job>();

    let answer = Rc::new(Cell::new(0usize));
    let answer_in_job = Rc::clone(&answer);
    assert!(submit_job(
        &mut inner,
        &sender,
        Box::new(move || answer_in_job.set(42)) as Job,
    ));

    let (state, job) = worker_recv(&receiver, WorkerState::Running);
    assert!(matches!(state, WorkerState::Running));
    job.expect("a job was queued")();
    assert_eq!(answer.get(), 42);
    assert!(inner.finish_job());
}

#[test]
fn jobs_are_delivered_in_submission_order_to_a_single_consumer() {
    let mut inner = ThreadPoolInner::new();
    let (sender, receiver) = crossbeam_channel::unbounded::<Job>();

    let seen = Rc::new(Cell::new(Vec::new()));
    for index in 0..10usize {
        let seen = Rc::clone(&seen);
        let delivered = submit_job(
            &mut inner,
            &sender,
            Box::new(move || {
                let mut order = seen.take();
                order.push(index);
                seen.set(order);
            }) as Job,
        );
        assert!(delivered);
    }
    drop(sender);
    drain(&receiver, &mut inner);

    let order = seen.take();
    assert_eq!(order, (0..10).collect::<Vec<usize>>());
    assert!(inner.wait_empty());
}

#[test]
fn worker_with_no_jobs_terminates_at_once() {
    let mut inner = ThreadPoolInner::new();
    let (sender, receiver) = crossbeam_channel::unbounded::<Job>();
    drop(sender);
    drain(&receiver, &mut inner);
    assert_eq!(inner.outstanding_jobs(), 0);
    assert!(inner.wait_empty());
}

#[test]
fn submission_with_no_receivers_left_reports_failure() {
    // The pool treats this as a fatal internal error: all workers gone
    // while the pool still exists. The job was still counted first —
    // the count moves before the hand-off, unconditionally.
    let mut inner = ThreadPoolInner::new();
    let (sender, receiver) = crossbeam_channel::unbounded::<Job>();
    drop(receiver);
    let delivered = submit_job(&mut inner, &sender, Box::new(|| ()) as Job);
    assert!(!delivered);
    assert_eq!(inner.outstanding_jobs(), 1);
}
