use vstd::prelude::*;

verus! {

/// Where one worker stands in its lifecycle.
#[derive(Clone, Copy, PartialEq, Eq, Structural, Debug)]
pub enum WorkerState {
    /// The worker's thread is in its dispatch loop (or died there without the
    /// pool knowing yet: a panic only becomes visible at join time).
    Running,
    /// The worker saw the closed and drained channel and left its loop; its
    /// thread is terminating and is joinable.
    Exited,
    /// Shutdown joined this worker and the join succeeded.
    JoinedClean,
    /// Shutdown joined this worker and the join reported a dead thread: a job
    /// panicked while this worker ran it.
    JoinedPanicked,
}

impl WorkerState {
    /// The worker has been joined by shutdown, one way or the other.
    pub open spec fn is_joined(self) -> bool {
        self is JoinedClean || self is JoinedPanicked
    }
}

/// One worker of the pool: a small integer id and its lifecycle state.
///
/// Worker `i` of a pool of size `n` has id `i` in `0..n`; the ids identify
/// workers in dequeue steps and order the sequential joins of shutdown.
#[derive(Clone, Copy, Debug)]
pub struct Worker {
    /// This worker's index in the pool's construction order.
    pub id: usize,
    /// Where this worker stands in its lifecycle.
    pub state: WorkerState,
}

} // verus!
