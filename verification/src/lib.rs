//! A fixed-capacity pool of reusable values.
//!
//! A pool is built once with a set of values and hands them out one at a
//! time: [`Pool::acquire`] checks a value out behind a [`Guard`], and
//! [`Pool::release`] puts it back, mutations and all. The pool keeps one
//! invariant at every step: idle values plus checked-out values equal the
//! capacity chosen at construction.
//!
//! The pool itself is a plain value operated on through exclusive access;
//! sharing it among concurrent tasks, suspending while it is empty and
//! returning values when a guard goes out of scope are the business of a
//! thin asynchronous wrapper around it.

pub mod model;
pub mod pool;

pub use pool::Guard;
pub use pool::Pool;
