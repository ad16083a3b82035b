//! Core of a fixed-size worker thread pool: the lifecycle and
//! work-distribution protocol that connects job submitters to a bounded set
//! of workers through one shared FIFO dispatch channel.
//!
//! This crate holds the decision logic of the pool as a state machine with
//! verified transitions: construction, job submission, the dequeue step of a
//! worker's dispatch loop, and the sequential shutdown/join protocol. An
//! embedding application drives real OS threads from these decisions; the
//! protocol itself — what may happen in each state, and what every transition
//! does to the queue and to the workers — is proved here.

pub mod errors;
pub mod pool;
pub mod worker;
