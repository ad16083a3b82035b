use threadpool::errors::{JoinOutcome, PoolError};
use threadpool::pool::{DequeueAction, ThreadPool};

#[test]
fn it_works() {
    let mut pool = ThreadPool::new(4).unwrap();
    for i in 0i32..10 {
        pool.exec().unwrap();
        println!("hi {:#?}", i);
    }
}

#[test]
fn new_spawns_exactly_size_workers() {
    let pool = ThreadPool::new(1).unwrap();
    assert_eq!(pool.worker_count(), 1);
    let pool = ThreadPool::new(4).unwrap();
    assert_eq!(pool.worker_count(), 4);
    let pool = ThreadPool::new(7).unwrap();
    assert_eq!(pool.worker_count(), 7);
    assert!(pool.is_accepting());
    assert_eq!(pool.pending_jobs(), 0);
    assert_eq!(pool.joined_count(), 0);
}

#[test]
fn zero_workers_rejected() {
    assert!(matches!(ThreadPool::new(0), Err(PoolError::InvalidSize)));
    assert!(matches!(ThreadPool::new(-3), Err(PoolError::InvalidSize)));
}

#[test]
fn submit_after_shutdown_is_refused() {
    let mut pool = ThreadPool::new(2).unwrap();
    pool.begin_shutdown();
    assert_eq!(pool.exec(), Err(PoolError::ChannelClosed));
    // The refused job was never enqueued: both workers find the channel
    // closed and drained, and exit without running anything.
    assert_eq!(pool.pending_jobs(), 0);
    assert_eq!(pool.dequeue(0), DequeueAction::Exit);
    assert_eq!(pool.dequeue(1), DequeueAction::Exit);
}

#[test]
fn fifo_dispatch_order() {
    let mut pool = ThreadPool::new(2).unwrap();
    let a = pool.exec().unwrap();
    let b = pool.exec().unwrap();
    let c = pool.exec().unwrap();
    // Hand-off follows submission order, whichever worker asks.
    assert_eq!(pool.dequeue(0), DequeueAction::Run(a));
    assert_eq!(pool.dequeue(1), DequeueAction::Run(b));
    assert_eq!(pool.dequeue(0), DequeueAction::Run(c));
    // Nothing queued and the pool still accepting: workers wait.
    assert_eq!(pool.dequeue(1), DequeueAction::Wait);
}

#[test]
fn ten_jobs_four_workers_each_exactly_once() {
    let mut pool = ThreadPool::new(4).unwrap();
    let mut tickets: Vec<u64> = Vec::new();
    for _i in 0i32..10 {
        tickets.push(pool.exec().unwrap());
    }
    pool.begin_shutdown();
    // Drive the four dispatch loops; record every execution.
    let mut seen: Vec<bool> = vec![false; 10];
    for w in 0usize..4 {
        loop {
            match pool.dequeue(w) {
                DequeueAction::Run(t) => {
                    let slot = tickets.iter().position(|&x| x == t).unwrap();
                    assert!(!seen[slot], "job dispatched twice");
                    seen[slot] = true;
                }
                DequeueAction::Exit => break,
                DequeueAction::Wait => unreachable!("closed pool never makes a worker wait"),
            }
        }
    }
    assert!(seen.iter().all(|&s| s), "a job was lost");
    // All four workers terminate and report a clean join.
    for _w in 0usize..4 {
        assert_eq!(pool.join_next(), JoinOutcome::Clean);
    }
    assert!(pool.is_shut_down());
    assert_eq!(pool.pending_jobs(), 0);
}

#[test]
fn failing_job_reports_join_failure() {
    let mut pool = ThreadPool::new(1).unwrap();
    let t = pool.exec().unwrap();
    pool.begin_shutdown();
    // The single worker takes the job; the job panics, so the worker's
    // thread dies without ever coming back for another dequeue.
    assert_eq!(pool.dequeue(0), DequeueAction::Run(t));
    // Shutdown still returns: the join is attempted, and the dead thread is
    // reported rather than hung on or hidden.
    assert_eq!(pool.join_next(), JoinOutcome::JoinFailure);
    assert!(pool.is_shut_down());
}

#[test]
fn shutdown_joins_every_worker_in_order() {
    let mut pool = ThreadPool::new(3).unwrap();
    pool.begin_shutdown();
    for w in 0usize..3 {
        assert_eq!(pool.dequeue(w), DequeueAction::Exit);
    }
    assert!(!pool.is_shut_down());
    for j in 0usize..3 {
        assert_eq!(pool.joined_count(), j);
        assert_eq!(pool.join_next(), JoinOutcome::Clean);
    }
    assert_eq!(pool.joined_count(), 3);
    assert!(pool.is_shut_down());
}
