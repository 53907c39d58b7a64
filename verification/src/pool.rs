//! A bounded worker-pool dispatch engine.
//!
//! A fixed number of workers take jobs from one shared FIFO queue and run
//! them. A shutdown stops the intake, lets the workers drain the queue, and
//! is complete only when every worker has stopped and has been joined.
//!
//! The engine holds no threads. It is the pool's shared state together with
//! every decision the pool makes, as a state machine: whoever drives it keeps
//! it behind a lock, runs one thread per worker, lets each thread ask the
//! engine for its next job, runs that job outside the lock, and reports its
//! end. [`model`] defines the machine, [`thread_pool`] implements it, and
//! [`laws`] proves what holds of it.

pub mod channel;
pub mod guard;
pub mod laws;
pub mod model;
pub mod thread_pool;
pub mod worker;
