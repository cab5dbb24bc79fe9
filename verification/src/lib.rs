//! Core logic of a fixed-size worker thread pool.
//!
//! The pool accepts one-shot units of work, runs them on a fixed set of
//! worker threads, and offers a barrier `join` that blocks until every
//! job submitted so far has completed. This crate holds the verified
//! heart of that design:
//!
//! - [`pool::ThreadPoolInner`], the counter of outstanding jobs together
//!   with the decisions that drive the condition-variable protocol
//!   around it (when to wake waiters, when a waiter may return);
//! - [`pool::worker_step`], the worker thread's state machine: what a
//!   worker does with each outcome of its blocking receive;
//! - [`queue`], submission and the worker's receive around the
//!   job channel, whose handles are trusted declarations;
//! - [`trace`], a history model of the counter with proofs of the
//!   barrier's guarantees (a join returns only once every submitted job
//!   has finished, and observing the barrier changes nothing).
//!
//! The unverifiable plumbing — spawning OS threads, the boxed closures
//! the queue carries, the mutex and condition variable sharing the
//! counter — lives outside this crate and calls into these functions
//! for every decision it takes.

pub mod pool;
pub mod queue;
pub mod trace;
