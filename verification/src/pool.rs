use vstd::prelude::*;

use crate::errors::{JoinOutcome, PoolError};
use crate::worker::{Worker, WorkerState};

verus! {

/// What the dispatch loop of a worker must do next, decided from the state of
/// the shared channel.
#[derive(Clone, Copy, PartialEq, Eq, Structural, Debug)]
pub enum DequeueAction {
    /// Run the job with this ticket, with the channel lock released, and come
    /// back for the next one.
    Run(u64),
    /// The queue is empty but submissions may still arrive: block until the
    /// pool signals, and ask again.
    Wait,
    /// The producing side is closed and the queue is drained: leave the
    /// dispatch loop; the worker's thread terminates.
    Exit,
}

/// The thread pool's protocol state: the single shared FIFO dispatch channel,
/// the fixed set of workers, and the progress of shutdown.
///
/// A job is identified by the ticket (a `u64`) that `exec` handed out when the
/// job was accepted. The embedding application keeps the job's closure under
/// that ticket, spawns one OS thread per worker, and drives each thread's
/// dispatch loop by `dequeue`; the protocol decisions themselves — who gets
/// which job, in what order, and when a worker may exit — are made and proved
/// here.
pub struct ThreadPool {
    /// The workers, in construction order; worker `i` sits at index `i`.
    pub workers: Vec<Worker>,
    /// Whether the producing side of the channel is still held by the pool.
    /// Shutdown closes it, and no submission is accepted afterwards.
    pub accepting: bool,
    /// The tickets of accepted jobs that no worker has taken yet, in
    /// submission order: the FIFO queue of the dispatch channel.
    pub pending: Vec<u64>,
    /// The ticket the next accepted submission will get.
    pub next_job: u64,
    /// How many workers shutdown has joined so far: exactly the workers
    /// `0..joined`, in construction order.
    pub joined: usize,
    /// History: the tickets of every accepted submission, in submission order.
    pub submitted: Ghost<Seq<u64>>,
    /// History: the tickets handed to workers for execution, in hand-off
    /// order.
    pub dispatched: Ghost<Seq<u64>>,
}

impl ThreadPool {
    /// The pool's invariant. Central is the channel equation: the submission
    /// history is exactly the hand-off history followed by the queue, so a
    /// job leaves the queue only by being handed to a worker, exactly once
    /// and in FIFO order.
    pub open spec fn wf(self) -> bool {
        &&& self.submitted@ == self.dispatched@ + self.pending@
        &&& self.submitted@.no_duplicates()
        &&& (forall|k: int|
            0 <= k < self.submitted@.len() ==> #[trigger] self.submitted@[k] < self.next_job)
        &&& self.joined <= self.workers@.len()
        &&& (forall|i: int| 0 <= i < self.workers@.len() ==> (#[trigger] self.workers@[i]).id == i)
        &&& (forall|i: int|
            0 <= i < self.workers@.len() ==> ((i < self.joined) <==> (
            #[trigger] self.workers@[i]).state.is_joined()))
        &&& (self.accepting ==> (forall|i: int|
            0 <= i < self.workers@.len() ==> (#[trigger] self.workers@[i]).state is Running))
        &&& ((exists|i: int|
            0 <= i < self.workers@.len() && ((#[trigger] self.workers@[i]).state is Exited
                || self.workers@[i].state is JoinedClean)) ==> (!self.accepting
            && self.pending@.len() == 0))
    }

    /// A pool as `new` hands it out: `size` running workers, an open channel,
    /// nothing submitted yet.
    pub open spec fn fresh(self, size: int) -> bool {
        &&& self.workers@.len() == size
        &&& self.accepting
        &&& self.pending@ == Seq::<u64>::empty()
        &&& self.submitted@ == Seq::<u64>::empty()
        &&& self.dispatched@ == Seq::<u64>::empty()
        &&& self.next_job == 0
        &&& self.joined == 0
        &&& (forall|i: int|
            0 <= i < self.workers@.len() ==> (#[trigger] self.workers@[i]).state is Running)
    }

    /// Shutdown has run to completion: the channel is closed and every worker
    /// has been joined.
    pub open spec fn shutdown_done(self) -> bool {
        !self.accepting && self.joined == self.workers@.len()
    }

    /// Creates a pool of exactly `size` workers, ids `0..size`, sharing one
    /// FIFO dispatch channel whose producing side the pool holds. A
    /// non-positive `size` is rejected with `InvalidSize`: a pool with zero
    /// workers would never run anything.
    pub fn new(size: i32) -> (r: Result<ThreadPool, PoolError>)
        ensures
            size >= 1 <==> r is Ok,
            r is Err ==> r == Err::<ThreadPool, PoolError>(PoolError::InvalidSize),
            (r matches Ok(p) ==> p.wf() && p.fresh(size as int)),
    {
        if size < 1 {
            return Err(PoolError::InvalidSize);
        }
        let n: usize = size as usize;
        let mut workers: Vec<Worker> = Vec::new();
        let mut i: usize = 0;
        while i < n
            invariant
                i <= n,
                workers@.len() == i,
                forall|k: int|
                    0 <= k < i ==> (#[trigger] workers@[k]).id == k && workers@[k].state
                        is Running,
            decreases n - i,
        {
            workers.push(Worker { id: i, state: WorkerState::Running });
            i = i + 1;
        }
        Ok(
            ThreadPool {
                workers,
                accepting: true,
                pending: Vec::new(),
                next_job: 0,
                joined: 0,
                submitted: Ghost(Seq::empty()),
                dispatched: Ghost(Seq::empty()),
            },
        )
    }

    /// Submits one job. While the pool is accepting, the job is appended to
    /// the back of the shared FIFO queue and its fresh ticket is returned:
    /// the caller hands the job's closure to the workers under that ticket.
    /// Once shutdown has begun the submission is refused with
    /// `ChannelClosed` — the job is not enqueued and nothing else changes.
    pub fn exec(&mut self) -> (r: Result<u64, PoolError>)
        requires
            old(self).wf(),
            old(self).accepting ==> old(self).next_job < u64::MAX,
        ensures
            final(self).wf(),
            !old(self).accepting ==> (r == Err::<u64, PoolError>(PoolError::ChannelClosed)
                && *final(self) == *old(self)),
            old(self).accepting ==> r == Ok::<u64, PoolError>(old(self).next_job),
            old(self).accepting ==> final(self).accepting,
            old(self).accepting ==> final(self).pending@ == old(self).pending@.push(
                old(self).next_job,
            ),
            old(self).accepting ==> final(self).submitted@ == old(self).submitted@.push(
                old(self).next_job,
            ),
            old(self).accepting ==> final(self).dispatched@ == old(self).dispatched@,
            old(self).accepting ==> final(self).workers@ == old(self).workers@,
            old(self).accepting ==> final(self).joined == old(self).joined,
            old(self).accepting ==> final(self).next_job == old(self).next_job + 1,
    {
        if !self.accepting {
            return Err(PoolError::ChannelClosed);
        }
        let ticket: u64 = self.next_job;
        self.pending.push(ticket);
        self.next_job = ticket + 1;
        proof {
            self.submitted@ = self.submitted@.push(ticket);
            Seq::<u64>::push_distributes_over_add(old(self).dispatched@, old(self).pending@, ticket);
        }
        Ok(ticket)
    }

    /// One dequeue step of worker `i`'s dispatch loop, taken with the channel
    /// lock held. If a job is queued, the worker takes the oldest one — the
    /// hand-off is strictly FIFO over all submissions — and runs it with the
    /// lock released. An empty queue makes the worker wait while the pool is
    /// accepting, and exit once shutdown has closed the channel.
    pub fn dequeue(&mut self, i: usize) -> (r: DequeueAction)
        requires
            old(self).wf(),
            i < old(self).workers@.len(),
            old(self).workers@[i as int].state is Running,
        ensures
            final(self).wf(),
            old(self).pending@.len() > 0 ==> r == DequeueAction::Run(old(self).pending@[0]),
            old(self).pending@.len() > 0 ==> old(self).pending@[0] == old(self).submitted@[old(self).dispatched@.len() as int],
            old(self).pending@.len() > 0 ==> final(self).pending@ == old(self).pending@.drop_first(),
            old(self).pending@.len() > 0 ==> final(self).dispatched@ == old(self).dispatched@.push(old(self).pending@[0]),
            old(self).pending@.len() > 0 ==> (final(self).submitted@ == old(self).submitted@
                && final(self).workers@ == old(self).workers@ && final(self).accepting == old(self).accepting && final(self).joined == old(self).joined && final(self).next_job == old(self).next_job),
            (old(self).pending@.len() == 0 && old(self).accepting) ==> (r == DequeueAction::Wait
                && *final(self) == *old(self)),
            (old(self).pending@.len() == 0 && !old(self).accepting) ==> r == DequeueAction::Exit,
            (old(self).pending@.len() == 0 && !old(self).accepting) ==> final(self).workers@ == old(self).workers@.update(i as int, Worker { id: i, state: WorkerState::Exited }),
            (old(self).pending@.len() == 0 && !old(self).accepting) ==> (final(self).pending@
                == old(self).pending@ && final(self).dispatched@ == old(self).dispatched@ && final(self).submitted@ == old(self).submitted@ && final(self).accepting == old(self).accepting
                && final(self).joined == old(self).joined && final(self).next_job == old(self).next_job),
    {
        if self.pending.len() > 0 {
            let ticket: u64 = self.pending.remove(0);
            proof {
                self.dispatched@ = self.dispatched@.push(ticket);
                assert(self.submitted@ =~= self.dispatched@ + self.pending@);
            }
            DequeueAction::Run(ticket)
        } else if self.accepting {
            DequeueAction::Wait
        } else {
            self.workers[i].state = WorkerState::Exited;
            DequeueAction::Exit
        }
    }

    /// Begins shutdown: releases the producing side of the channel,
    /// unconditionally and first, so that no further submission is accepted
    /// while jobs already queued stay for the workers to drain. Called
    /// exactly once, when the pool is torn down.
    pub fn begin_shutdown(&mut self)
        requires
            old(self).wf(),
            old(self).accepting,
        ensures
            final(self).wf(),
            !final(self).accepting,
            final(self).workers@ == old(self).workers@,
            final(self).pending@ == old(self).pending@,
            final(self).submitted@ == old(self).submitted@,
            final(self).dispatched@ == old(self).dispatched@,
            final(self).next_job == old(self).next_job,
            final(self).joined == old(self).joined,
    {
        self.accepting = false;
    }

    /// Joins the next worker in construction order and reports how the join
    /// went: `Clean` for a worker that left its dispatch loop, `JoinFailure`
    /// for one whose thread died running a job. The caller blocks on the
    /// worker's real thread before recording the join here; a failed join
    /// never stops shutdown, which goes on to the remaining workers.
    pub fn join_next(&mut self) -> (r: JoinOutcome)
        requires
            old(self).wf(),
            !old(self).accepting,
            old(self).joined < old(self).workers@.len(),
        ensures
            final(self).wf(),
            final(self).joined == old(self).joined + 1,
            final(self).accepting == old(self).accepting,
            final(self).pending@ == old(self).pending@,
            final(self).submitted@ == old(self).submitted@,
            final(self).dispatched@ == old(self).dispatched@,
            final(self).next_job == old(self).next_job,
            old(self).workers@[old(self).joined as int].state is Exited ==> (r
                == JoinOutcome::Clean && final(self).workers@ == old(self).workers@.update(
                old(self).joined as int,
                Worker { id: old(self).joined, state: WorkerState::JoinedClean },
            )),
            old(self).workers@[old(self).joined as int].state is Running ==> (r
                == JoinOutcome::JoinFailure && final(self).workers@ == old(self).workers@.update(
                old(self).joined as int,
                Worker { id: old(self).joined, state: WorkerState::JoinedPanicked },
            )),
    {
        let i: usize = self.joined;
        // Reading the length as a usize shows the verifier that `i + 1` fits.
        let _n: usize = self.workers.len();
        let joined_clean: bool = match self.workers[i].state {
            WorkerState::Exited => true,
            _ => false,
        };
        if joined_clean {
            self.workers[i].state = WorkerState::JoinedClean;
            self.joined = i + 1;
            JoinOutcome::Clean
        } else {
            self.workers[i].state = WorkerState::JoinedPanicked;
            self.joined = i + 1;
            JoinOutcome::JoinFailure
        }
    }

    /// How many workers this pool was built with.
    pub fn worker_count(&self) -> (n: usize)
        ensures
            n == self.workers@.len(),
    {
        self.workers.len()
    }

    /// Whether the pool still accepts submissions (shutdown has not begun).
    pub fn is_accepting(&self) -> (b: bool)
        ensures
            b == self.accepting,
    {
        self.accepting
    }

    /// How many accepted jobs no worker has taken yet.
    pub fn pending_jobs(&self) -> (n: usize)
        ensures
            n == self.pending@.len(),
    {
        self.pending.len()
    }

    /// How many workers shutdown has joined so far.
    pub fn joined_count(&self) -> (n: usize)
        ensures
            n == self.joined,
    {
        self.joined
    }

    /// Whether shutdown has run to completion: the channel is closed and
    /// every worker has been joined.
    pub fn is_shut_down(&self) -> (b: bool)
        ensures
            b == self.shutdown_done(),
    {
        !self.accepting && self.joined == self.workers.len()
    }
}

/// Global FIFO at the channel: at every reachable state, the jobs handed to
/// workers so far, in hand-off order, are exactly the earliest submissions,
/// in submission order. Jobs submitted strictly before a job J are each
/// dequeued no later than J; only completion order across distinct workers
/// may interleave.
pub proof fn lemma_dispatch_is_fifo(p: ThreadPool)
    requires
        p.wf(),
    ensures
        p.dispatched@ == p.submitted@.take(p.dispatched@.len() as int),
        p.dispatched@.is_prefix_of(p.submitted@),
{
    assert(p.dispatched@ =~= p.submitted@.take(p.dispatched@.len() as int));
}

/// No job is lost and none is duplicated: once every worker of a (non-empty)
/// pool has been joined cleanly, the queue is drained, and the jobs handed to
/// workers are exactly the submitted ones — each submitted job went to a
/// worker exactly once, in submission order.
pub proof fn lemma_no_job_lost_or_duplicated(p: ThreadPool)
    requires
        p.wf(),
        p.workers@.len() > 0,
        forall|i: int| 0 <= i < p.workers@.len() ==> (#[trigger] p.workers@[i]).state
            is JoinedClean,
    ensures
        p.pending@.len() == 0,
        p.dispatched@ == p.submitted@,
        p.dispatched@.no_duplicates(),
{
    assert(p.workers@[0].state is JoinedClean);
    assert(p.dispatched@ =~= p.submitted@);
}

/// Shutdown accounts for every worker: when the joins have run to
/// completion, no worker is left running or merely exited — each one has
/// been joined, cleanly or with a reported failure.
pub proof fn lemma_shutdown_joins_all(p: ThreadPool)
    requires
        p.wf(),
        p.joined == p.workers@.len(),
    ensures
        forall|i: int| 0 <= i < p.workers@.len() ==> (#[trigger] p.workers@[i]).state.is_joined(),
{
}

} // verus!
