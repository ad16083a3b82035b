use vstd::prelude::*;

verus! {

/// Why a pool operation was refused.
#[derive(Clone, Copy, PartialEq, Eq, Structural, Debug)]
pub enum PoolError {
    /// Construction was asked for a non-positive worker count. A pool with
    /// zero workers would accept jobs that no one could ever run, so such a
    /// request is rejected eagerly.
    InvalidSize,
    /// A submission arrived after shutdown had begun: the producing side of
    /// the dispatch channel is gone, and the job was not accepted.
    ChannelClosed,
}

/// What joining one worker during shutdown reported.
#[derive(Clone, Copy, PartialEq, Eq, Structural, Debug)]
pub enum JoinOutcome {
    /// The worker left its dispatch loop normally and its thread terminated.
    Clean,
    /// The worker's thread did not terminate cleanly (a job panicked and took
    /// the thread down with it). The worker is still accounted for: shutdown
    /// reports the failure and goes on to the remaining workers.
    JoinFailure,
}

} // verus!
