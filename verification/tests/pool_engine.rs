use rust_note::pool::model::{Dequeue, ShutdownStatus};
use rust_note::pool::thread_pool::{ConstructionError, ThreadPool};
use rust_note::pool::worker::{Outcome, Phase};
use std::cell::Cell;
use std::rc::Rc;

type Job = Box<dyn FnOnce()>;

fn pool_of<J>(size: usize) -> ThreadPool<J> {
    match ThreadPool::new(size) {
        Ok(pool) => pool,
        Err(ConstructionError) => panic!("a pool of {} workers was refused", size),
    }
}

fn counting_job(counter: &Rc<Cell<u32>>) -> Job {
    let counter = Rc::clone(counter);
    Box::new(move || counter.set(counter.get() + 1))
}

fn phase_of<J>(pool: &ThreadPool<J>, worker: usize) -> Phase {
    pool.worker(worker).unwrap().phase()
}

/// Lets every worker in turn try to dequeue, runs what it is handed and
/// reports the end, until a whole round changes nothing.
fn drive(pool: &mut ThreadPool<Job>) {
    loop {
        let mut progress = false;
        for worker in 0..pool.size() {
            match pool.dequeue(worker) {
                Dequeue::Job(job) => {
                    job();
                    assert!(pool.finish(worker, Outcome::Completed));
                    progress = true;
                },
                Dequeue::Closed => progress = true,
                Dequeue::Empty | Dequeue::Contended | Dequeue::NotWaiting => {},
            }
        }
        if !progress {
            return;
        }
    }
}

/// Shuts the pool down as a caller would: where the shutdown waits for a
/// worker, the workers run on until it can go on.
fn shut_down(pool: &mut ThreadPool<Job>) {
    let mut rounds = 0;
    while pool.shutdown() != ShutdownStatus::Complete {
        drive(pool);
        rounds += 1;
        assert!(rounds <= pool.size(), "the shutdown does not come to an end");
    }
}

#[test]
fn pool_of_no_workers_is_refused() {
    let made: Result<ThreadPool<u32>, ConstructionError> = ThreadPool::new(0);
    assert!(matches!(made, Err(ConstructionError)));
}

#[test]
fn new_pool_has_idle_workers_and_an_empty_queue() {
    let pool: ThreadPool<u32> = pool_of(3);
    assert_eq!(pool.size(), 3);
    assert!(pool.is_accepting());
    assert_eq!(pool.queued(), 0);
    assert_eq!(pool.reader(), None);
    for id in 0..3 {
        let worker = pool.worker(id).unwrap();
        assert_eq!(worker.id(), id);
        assert_eq!(worker.phase(), Phase::Idle);
        assert!(!worker.is_joined());
        assert_eq!(worker.faults(), 0);
    }
    assert!(pool.worker(3).is_none());
}

#[test]
fn pool_of_one_worker_is_made() {
    let pool: ThreadPool<u32> = pool_of(1);
    assert_eq!(pool.size(), 1);
    assert!(pool.worker(1).is_none());
}

#[test]
fn execute_queues_the_job() {
    let mut pool: ThreadPool<u32> = pool_of(2);
    assert!(pool.execute(10).is_ok());
    assert!(pool.execute(20).is_ok());
    assert_eq!(pool.queued(), 2);
    assert_eq!(phase_of(&pool, 0), Phase::Idle);
    assert_eq!(phase_of(&pool, 1), Phase::Idle);
}

#[test]
fn jobs_are_handed_out_in_the_order_of_submission() {
    let mut pool: ThreadPool<u32> = pool_of(2);
    for job in [5, 3, 9, 3, 1] {
        assert!(pool.execute(job).is_ok());
    }
    let mut handed = Vec::new();
    for turn in 0..5 {
        let worker = turn % 2;
        match pool.dequeue(worker) {
            Dequeue::Job(job) => handed.push(job),
            _ => panic!("worker {} was handed no job", worker),
        }
        assert!(pool.finish(worker, Outcome::Completed));
    }
    assert_eq!(handed, vec![5, 3, 9, 3, 1]);
    assert_eq!(pool.queued(), 0);
}

#[test]
fn all_workers_execute_at_once() {
    let mut pool: ThreadPool<u32> = pool_of(4);
    for job in 0..4 {
        assert!(pool.execute(job).is_ok());
    }
    for worker in 0..4 {
        assert!(matches!(pool.dequeue(worker), Dequeue::Job(job) if job == worker as u32));
        assert_eq!(pool.reader(), None);
    }
    for worker in 0..4 {
        assert_eq!(phase_of(&pool, worker), Phase::Executing);
    }
    assert_eq!(pool.queued(), 0);
}

#[test]
fn worker_that_executes_does_not_keep_others_from_reading() {
    let mut pool: ThreadPool<u32> = pool_of(2);
    assert!(pool.execute(1).is_ok());
    assert!(matches!(pool.dequeue(0), Dequeue::Job(1)));
    assert!(matches!(pool.dequeue(1), Dequeue::Empty));
    assert_eq!(pool.reader(), Some(1));
    assert!(pool.execute(2).is_ok());
    assert!(matches!(pool.dequeue(1), Dequeue::Job(2)));
    assert_eq!(phase_of(&pool, 0), Phase::Executing);
    assert_eq!(phase_of(&pool, 1), Phase::Executing);
}

#[test]
fn worker_waits_inside_the_read_while_the_queue_is_empty() {
    let mut pool: ThreadPool<u32> = pool_of(2);
    assert!(matches!(pool.dequeue(0), Dequeue::Empty));
    assert_eq!(phase_of(&pool, 0), Phase::Receiving);
    assert_eq!(pool.reader(), Some(0));
    assert!(matches!(pool.dequeue(0), Dequeue::Empty));
    assert_eq!(pool.reader(), Some(0));
}

#[test]
fn second_reader_waits_outside() {
    let mut pool: ThreadPool<u32> = pool_of(3);
    assert!(matches!(pool.dequeue(1), Dequeue::Empty));
    assert!(matches!(pool.dequeue(0), Dequeue::Contended));
    assert!(matches!(pool.dequeue(2), Dequeue::Contended));
    assert_eq!(phase_of(&pool, 0), Phase::Idle);
    assert_eq!(phase_of(&pool, 2), Phase::Idle);
    assert_eq!(pool.reader(), Some(1));
}

#[test]
fn job_goes_to_the_worker_inside_the_read() {
    let mut pool: ThreadPool<u32> = pool_of(2);
    assert!(matches!(pool.dequeue(1), Dequeue::Empty));
    assert!(pool.execute(42).is_ok());
    assert!(matches!(pool.dequeue(0), Dequeue::Contended));
    assert_eq!(pool.queued(), 1);
    assert!(matches!(pool.dequeue(1), Dequeue::Job(42)));
    assert_eq!(pool.reader(), None);
    assert!(matches!(pool.dequeue(0), Dequeue::Empty));
    assert_eq!(pool.reader(), Some(0));
}

#[test]
fn executing_worker_cannot_dequeue() {
    let mut pool: ThreadPool<u32> = pool_of(1);
    assert!(pool.execute(1).is_ok());
    assert!(pool.execute(2).is_ok());
    assert!(matches!(pool.dequeue(0), Dequeue::Job(1)));
    assert!(matches!(pool.dequeue(0), Dequeue::NotWaiting));
    assert_eq!(pool.queued(), 1);
    assert_eq!(phase_of(&pool, 0), Phase::Executing);
}

#[test]
fn unknown_worker_cannot_dequeue_or_finish() {
    let mut pool: ThreadPool<u32> = pool_of(2);
    assert!(pool.execute(1).is_ok());
    assert!(matches!(pool.dequeue(2), Dequeue::NotWaiting));
    assert!(matches!(pool.dequeue(usize::MAX), Dequeue::NotWaiting));
    assert!(!pool.finish(2, Outcome::Completed));
    assert_eq!(pool.queued(), 1);
    assert_eq!(pool.reader(), None);
}

#[test]
fn finish_needs_a_job_in_hand() {
    let mut pool: ThreadPool<u32> = pool_of(1);
    assert!(!pool.finish(0, Outcome::Completed));
    assert!(pool.execute(1).is_ok());
    assert!(matches!(pool.dequeue(0), Dequeue::Job(1)));
    assert!(pool.finish(0, Outcome::Completed));
    assert!(!pool.finish(0, Outcome::Completed));
    assert_eq!(phase_of(&pool, 0), Phase::Idle);
}

#[test]
fn fault_is_counted_and_the_worker_goes_on() {
    let mut pool: ThreadPool<u32> = pool_of(1);
    for job in [1, 2, 3] {
        assert!(pool.execute(job).is_ok());
    }
    assert!(matches!(pool.dequeue(0), Dequeue::Job(1)));
    assert!(pool.finish(0, Outcome::Faulted));
    assert_eq!(phase_of(&pool, 0), Phase::Idle);
    assert_eq!(pool.worker(0).unwrap().faults(), 1);
    assert!(matches!(pool.dequeue(0), Dequeue::Job(2)));
    assert!(pool.finish(0, Outcome::Completed));
    assert_eq!(pool.worker(0).unwrap().faults(), 1);
    assert!(matches!(pool.dequeue(0), Dequeue::Job(3)));
    assert!(pool.finish(0, Outcome::Faulted));
    assert_eq!(pool.worker(0).unwrap().faults(), 2);
    assert_eq!(pool.size(), 1);
}

#[test]
fn submit_after_shutdown_returns_the_job() {
    let mut pool: ThreadPool<u32> = pool_of(2);
    assert!(pool.execute(7).is_ok());
    assert_eq!(pool.shutdown(), ShutdownStatus::WaitingFor(0));
    assert!(!pool.is_accepting());
    match pool.execute(8) {
        Err(refused) => assert_eq!(refused.job, 8),
        Ok(()) => panic!("a pool that was shut down accepted a job"),
    }
    assert_eq!(pool.queued(), 1);
    assert!(matches!(pool.execute(9), Err(_)));
    assert_eq!(pool.queued(), 1);
}

#[test]
fn queued_jobs_are_still_delivered_after_shutdown() {
    let mut pool: ThreadPool<u32> = pool_of(1);
    assert!(pool.execute(1).is_ok());
    assert!(pool.execute(2).is_ok());
    assert_eq!(pool.shutdown(), ShutdownStatus::WaitingFor(0));
    assert!(matches!(pool.dequeue(0), Dequeue::Job(1)));
    assert!(pool.finish(0, Outcome::Completed));
    assert!(matches!(pool.dequeue(0), Dequeue::Job(2)));
    assert_eq!(pool.shutdown(), ShutdownStatus::WaitingFor(0));
    assert!(pool.finish(0, Outcome::Completed));
    assert!(matches!(pool.dequeue(0), Dequeue::Closed));
    assert_eq!(phase_of(&pool, 0), Phase::Stopped);
    assert_eq!(pool.shutdown(), ShutdownStatus::Complete);
    assert!(pool.worker(0).unwrap().is_joined());
}

#[test]
fn worker_stops_only_at_a_closed_channel() {
    let mut pool: ThreadPool<u32> = pool_of(1);
    assert!(matches!(pool.dequeue(0), Dequeue::Empty));
    assert_eq!(phase_of(&pool, 0), Phase::Receiving);
    assert_eq!(pool.shutdown(), ShutdownStatus::WaitingFor(0));
    assert!(matches!(pool.dequeue(0), Dequeue::Closed));
    assert_eq!(phase_of(&pool, 0), Phase::Stopped);
    assert_eq!(pool.reader(), None);
}

#[test]
fn stopped_worker_never_runs_again() {
    let mut pool: ThreadPool<u32> = pool_of(1);
    assert_eq!(pool.shutdown(), ShutdownStatus::WaitingFor(0));
    assert!(matches!(pool.dequeue(0), Dequeue::Closed));
    assert!(matches!(pool.dequeue(0), Dequeue::NotWaiting));
    assert!(!pool.finish(0, Outcome::Completed));
    assert_eq!(phase_of(&pool, 0), Phase::Stopped);
}

#[test]
fn shutdown_joins_workers_in_the_order_of_creation() {
    let mut pool: ThreadPool<u32> = pool_of(3);
    assert_eq!(pool.shutdown(), ShutdownStatus::WaitingFor(0));
    assert!(matches!(pool.dequeue(2), Dequeue::Closed));
    assert_eq!(pool.shutdown(), ShutdownStatus::WaitingFor(0));
    assert!(!pool.worker(2).unwrap().is_joined());
    assert!(matches!(pool.dequeue(0), Dequeue::Closed));
    assert_eq!(pool.shutdown(), ShutdownStatus::WaitingFor(1));
    assert!(pool.worker(0).unwrap().is_joined());
    assert!(!pool.worker(1).unwrap().is_joined());
    assert!(!pool.worker(2).unwrap().is_joined());
    assert!(matches!(pool.dequeue(1), Dequeue::Closed));
    assert_eq!(pool.shutdown(), ShutdownStatus::Complete);
    for worker in 0..3 {
        assert!(pool.worker(worker).unwrap().is_joined());
    }
}

#[test]
fn shutdown_waits_for_a_worker_that_executes() {
    let mut pool: ThreadPool<u32> = pool_of(2);
    assert!(pool.execute(1).is_ok());
    assert!(matches!(pool.dequeue(1), Dequeue::Job(1)));
    assert_eq!(pool.shutdown(), ShutdownStatus::WaitingFor(0));
    assert!(matches!(pool.dequeue(0), Dequeue::Closed));
    assert_eq!(pool.shutdown(), ShutdownStatus::WaitingFor(1));
    assert_eq!(phase_of(&pool, 1), Phase::Executing);
    assert!(pool.finish(1, Outcome::Completed));
    assert_eq!(pool.shutdown(), ShutdownStatus::WaitingFor(1));
    assert!(matches!(pool.dequeue(1), Dequeue::Closed));
    assert_eq!(pool.shutdown(), ShutdownStatus::Complete);
}

#[test]
fn shutdown_twice_is_shutdown_once() {
    let mut pool: ThreadPool<u32> = pool_of(2);
    assert!(pool.execute(1).is_ok());
    let first = pool.shutdown();
    let second = pool.shutdown();
    assert_eq!(first, ShutdownStatus::WaitingFor(0));
    assert_eq!(second, first);
    assert!(!pool.is_accepting());
    assert_eq!(pool.queued(), 1);
    assert_eq!(phase_of(&pool, 0), Phase::Idle);
    assert_eq!(phase_of(&pool, 1), Phase::Idle);
}

#[test]
fn shutdown_after_completion_changes_nothing() {
    let mut pool: ThreadPool<Job> = pool_of(2);
    let counter = Rc::new(Cell::new(0));
    assert!(pool.execute(counting_job(&counter)).is_ok());
    shut_down(&mut pool);
    assert_eq!(pool.shutdown(), ShutdownStatus::Complete);
    assert_eq!(pool.shutdown(), ShutdownStatus::Complete);
    assert_eq!(counter.get(), 1);
    for worker in 0..2 {
        assert_eq!(phase_of(&pool, worker), Phase::Stopped);
        assert!(pool.worker(worker).unwrap().is_joined());
    }
    assert!(matches!(pool.execute(counting_job(&counter)), Err(_)));
    assert_eq!(counter.get(), 1);
}

#[test]
fn more_jobs_than_workers_all_run_exactly_once() {
    let mut pool: ThreadPool<Job> = pool_of(3);
    let counter = Rc::new(Cell::new(0));
    for _ in 0..10 {
        assert!(pool.execute(counting_job(&counter)).is_ok());
    }
    shut_down(&mut pool);
    assert_eq!(counter.get(), 10);
    assert_eq!(pool.queued(), 0);
}

#[test]
fn each_job_runs_once_whichever_worker_takes_it() {
    let mut pool: ThreadPool<Job> = pool_of(3);
    let runs: Rc<Vec<Cell<u32>>> = Rc::new((0..7).map(|_| Cell::new(0)).collect());
    for job in 0..7 {
        let runs = Rc::clone(&runs);
        assert!(pool.execute(Box::new(move || runs[job].set(runs[job].get() + 1))).is_ok());
    }
    let order = [2, 0, 2, 1, 1, 0, 2];
    let mut in_hand: Vec<Option<Job>> = vec![None, None, None];
    for worker in order {
        if let Some(job) = in_hand[worker].take() {
            job();
            assert!(pool.finish(worker, Outcome::Completed));
        }
        match pool.dequeue(worker) {
            Dequeue::Job(job) => in_hand[worker] = Some(job),
            _ => panic!("worker {} was handed no job", worker),
        }
    }
    for worker in 0..3 {
        if let Some(job) = in_hand[worker].take() {
            job();
            assert!(pool.finish(worker, Outcome::Completed));
        }
    }
    shut_down(&mut pool);
    for job in 0..7 {
        assert_eq!(runs[job].get(), 1);
    }
}

#[test]
fn teardown_is_a_barrier() {
    let mut pool: ThreadPool<Job> = pool_of(2);
    let counter = Rc::new(Cell::new(0));
    for _ in 0..5 {
        assert!(pool.execute(counting_job(&counter)).is_ok());
    }
    assert_eq!(pool.shutdown(), ShutdownStatus::WaitingFor(0));
    assert_eq!(counter.get(), 0);
    shut_down(&mut pool);
    assert_eq!(counter.get(), 5);
    assert_eq!(pool.queued(), 0);
    for worker in 0..2 {
        assert_eq!(phase_of(&pool, worker), Phase::Stopped);
    }
}

#[test]
fn four_workers_eight_jobs() {
    let mut pool: ThreadPool<Job> = pool_of(4);
    let counter = Rc::new(Cell::new(0));
    for _ in 0..8 {
        assert!(pool.execute(counting_job(&counter)).is_ok());
    }
    shut_down(&mut pool);
    assert_eq!(counter.get(), 8);
}

#[test]
fn shutdown_of_an_unused_pool_completes() {
    let mut pool: ThreadPool<Job> = pool_of(4);
    shut_down(&mut pool);
    assert_eq!(pool.shutdown(), ShutdownStatus::Complete);
    assert_eq!(pool.queued(), 0);
}
