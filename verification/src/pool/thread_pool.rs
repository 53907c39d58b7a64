//! The worker pool: a fixed set of workers behind one work channel.
//!
//! The pool is an engine without threads of its own. Whoever drives it runs
//! one thread per worker and reports what happens: a worker's attempt to
//! dequeue, the end of a job, a shutdown. The engine decides what each of
//! these does, and every decision is one step of the state machine in
//! [`crate::pool::model`].

use crate::pool::channel::{Delivery, Producer, WorkChannel};
use crate::pool::guard::ReadGuard;
use crate::pool::laws::{
    dequeue_keeps_valid, finish_keeps_valid, init_is_valid, shutdown_keeps_valid,
    stopped_run_extends, submit_keeps_valid,
};
use crate::pool::model::{Dequeue, JobStatus, PoolState, ShutdownStatus};
use crate::pool::worker::{Outcome, Phase, Worker, WorkerState};
use vstd::prelude::*;

verus! {

/// A pool without workers was asked for. Such a pool could never run a job,
/// so none is made.
#[derive(Clone, Copy, PartialEq, Eq, Debug, Structural)]
pub struct ConstructionError;

/// A job was submitted to a pool that no longer accepts work. The job comes
/// back to its submitter, who may drop it or offer it elsewhere.
pub struct DispatchError<J> {
    pub job: J,
}

/// What the pool remembers of its jobs for the sake of its contracts.
struct Ledger<J> {
    jobs: Seq<J>,
    status: Seq<JobStatus>,
    taken: nat,
    in_hand: Seq<Option<int>>,
}

/// A fixed set of workers that take jobs of type `J` from one shared queue.
pub struct ThreadPool<J> {
    workers: Vec<Worker>,
    sender: Option<Producer>,
    channel: WorkChannel<J>,
    guard: ReadGuard,
    ledger: Ghost<Ledger<J>>,
}

impl<J> View for ThreadPool<J> {
    type V = PoolState<J>;

    closed spec fn view(&self) -> PoolState<J> {
        PoolState {
            workers: Seq::new(self.workers@.len(), |w: int| self.workers@[w]@),
            accepting: self.sender is Some,
            guard: match self.guard@ {
                Some(g) => Some(g as int),
                None => None,
            },
            jobs: self.ledger@.jobs,
            status: self.ledger@.status,
            taken: self.ledger@.taken,
            in_hand: self.ledger@.in_hand,
        }
    }
}

impl<J> ThreadPool<J> {
    /// The pool's parts agree with its ledger: the channel holds the jobs
    /// that were not taken, and counts the pool's producer end and no other.
    pub closed spec fn coherent(&self) -> bool {
        &&& self.channel@.pending == self.ledger@.jobs.skip(self.ledger@.taken as int)
        &&& self.channel@.consumer
        &&& self.channel@.producers == if self.sender is Some {
            1nat
        } else {
            0nat
        }
    }

    /// The pool is well formed: its parts agree, and its state is one that a
    /// pool can reach.
    pub open spec fn wf(&self) -> bool {
        self.coherent() && self@.valid()
    }

    /// Makes a pool of `size` workers, all idle, with an empty queue. A pool
    /// of no workers is refused before anything is made.
    pub fn new(size: usize) -> (made: Result<Self, ConstructionError>)
        ensures
            made is Err <==> size == 0,
            made matches Ok(pool) ==> pool.wf() && pool@ == PoolState::<J>::init(size as nat),
    {
        if size == 0 {
            return Err(ConstructionError);
        }
        let (channel, sender) = WorkChannel::new();
        let mut workers: Vec<Worker> = Vec::new();
        for id in 0..size
            invariant
                workers@.len() == id,
                forall|w: int| 0 <= w < id ==> (#[trigger] workers@[w])@ == WorkerState::started(w),
        {
            workers.push(Worker::new(id));
        }
        let pool = ThreadPool {
            workers,
            sender: Some(sender),
            channel,
            guard: ReadGuard::new(),
            ledger: Ghost(
                Ledger {
                    jobs: Seq::empty(),
                    status: Seq::empty(),
                    taken: 0,
                    in_hand: Seq::new(size as nat, |w: int| None),
                },
            ),
        };
        proof {
            assert(pool@.workers =~= PoolState::<J>::init(size as nat).workers);
            assert(pool@ == PoolState::<J>::init(size as nat));
            assert(pool.channel@.pending =~= pool.ledger@.jobs.skip(0));
            init_is_valid::<J>(size as nat);
        }
        Ok(pool)
    }

    /// Submits `job`: it goes to the tail of the queue, and the call never
    /// blocks. A pool that was shut down hands the job back in the error and
    /// stays as it is.
    pub fn execute(&mut self, job: J) -> (submitted: Result<(), DispatchError<J>>)
        requires
            old(self).wf(),
        ensures
            final(self).wf(),
            final(self)@ == old(self)@.submit(job),
            submitted == if old(self)@.accepting {
                Ok::<(), DispatchError<J>>(())
            } else {
                Err::<(), DispatchError<J>>(DispatchError { job })
            },
    {
        match &self.sender {
            Some(producer) => {
                match self.channel.send(producer, job) {
                    Ok(()) => {
                        proof {
                            let ghost before = self.ledger@;
                            self.ledger@ = Ledger {
                                jobs: before.jobs.push(job),
                                status: before.status.push(JobStatus::Queued),
                                ..before
                            };
                            assert(self.channel@.pending =~= self.ledger@.jobs.skip(
                                self.ledger@.taken as int,
                            ));
                            submit_keeps_valid(old(self)@, job);
                        }
                        Ok(())
                    },
                    Err(refused) => Err(DispatchError { job: refused.job }),
                }
            },
            None => Err(DispatchError { job }),
        }
    }

    /// Worker `worker` tries to dequeue. An idle worker first takes the read
    /// guard, if it is free. With the guard in hand it reads the channel: a
    /// job makes it leave the guarded read and execute; a closed channel
    /// makes it leave and stop; an empty one keeps it waiting there. The
    /// guard is given up before the job is handed out, so no job ever runs
    /// inside the guarded read.
    pub fn dequeue(&mut self, worker: usize) -> (got: Dequeue<J>)
        requires
            old(self).wf(),
        ensures
            final(self).wf(),
            final(self)@ == old(self)@.dequeue(worker as int),
            got == old(self)@.dequeued(worker as int),
    {
        if worker >= self.workers.len() {
            return Dequeue::NotWaiting;
        }
        let phase = self.workers[worker].phase();
        if phase == Phase::Idle {
            if !self.guard.acquire(worker) {
                return Dequeue::Contended;
            }
            self.workers[worker].enter_read();
        } else if phase != Phase::Receiving {
            return Dequeue::NotWaiting;
        }
        let got = match self.channel.receive() {
            Delivery::Job(job) => {
                self.guard.release(worker);
                self.workers[worker].take_job();
                proof {
                    let ghost before = self.ledger@;
                    self.ledger@ = Ledger {
                        status: before.status.update(
                            before.taken as int,
                            JobStatus::Running(worker as int),
                        ),
                        taken: before.taken + 1,
                        in_hand: before.in_hand.update(worker as int, Some(before.taken as int)),
                        ..before
                    };
                    assert(self.channel@.pending =~= self.ledger@.jobs.skip(
                        self.ledger@.taken as int,
                    ));
                }
                Dequeue::Job(job)
            },
            Delivery::Closed => {
                self.guard.release(worker);
                self.workers[worker].stop();
                Dequeue::Closed
            },
            Delivery::Empty => Dequeue::Empty,
        };
        proof {
            assert(self@.workers =~= old(self)@.dequeue(worker as int).workers);
            dequeue_keeps_valid(old(self)@, worker as int);
        }
        got
    }

    /// Reports that the job in the hands of worker `worker` has ended. The
    /// worker is idle again whatever the outcome: a fault is counted and
    /// costs the pool no worker. Says whether there was such a job; if not,
    /// nothing changes.
    pub fn finish(&mut self, worker: usize, outcome: Outcome) -> (ended: bool)
        requires
            old(self).wf(),
        ensures
            final(self).wf(),
            final(self)@ == old(self)@.finish(worker as int, outcome),
            ended == old(self)@.can_finish(worker as int),
    {
        if worker >= self.workers.len() {
            return false;
        }
        if !self.workers[worker].finish(outcome) {
            assert(self@.workers =~= old(self)@.workers);
            return false;
        }
        proof {
            let ghost before = self.ledger@;
            self.ledger@ = Ledger {
                status: match before.in_hand[worker as int] {
                    Some(t) => before.status.update(t, JobStatus::of(outcome)),
                    None => before.status,
                },
                in_hand: before.in_hand.update(worker as int, None),
                ..before
            };
            assert(self@.workers =~= old(self)@.finish(worker as int, outcome).workers);
            finish_keeps_valid(old(self)@, worker as int, outcome);
        }
        true
    }

    /// Shuts the pool down as far as it can without waiting. The producer
    /// end is given up, once; the workers are then joined in the order of
    /// their creation, up to the first that still runs. `Complete` says that
    /// every worker has stopped and is joined; `WaitingFor` names the worker
    /// that has to stop before another call can go on. A call after the
    /// shutdown is complete changes nothing.
    pub fn shutdown(&mut self) -> (status: ShutdownStatus)
        requires
            old(self).wf(),
        ensures
            final(self).wf(),
            final(self)@ == old(self)@.shutdown(),
            status == old(self)@.shutdown_status(),
    {
        match self.sender.take() {
            Some(producer) => {
                self.channel.release(producer);
            },
            None => {},
        }
        let mut next: usize = 0;
        let mut status = ShutdownStatus::Complete;
        while next < self.workers.len()
            invariant_except_break
                status == ShutdownStatus::Complete,
            invariant
                next <= self.workers@.len() == old(self).workers@.len(),
                self.sender is None,
                self.channel@ == old(self).channel@.release(),
                self.guard == old(self).guard,
                self.ledger == old(self).ledger,
                forall|w: int|
                    0 <= w < next ==> (#[trigger] old(self).workers@[w])@.phase == Phase::Stopped,
                forall|w: int|
                    0 <= w < self.workers@.len() ==> (#[trigger] self.workers@[w])@ == if w < next {
                        old(self).workers@[w]@.join()
                    } else {
                        old(self).workers@[w]@
                    },
            ensures
                status == if next < self.workers@.len() {
                    ShutdownStatus::WaitingFor(next)
                } else {
                    ShutdownStatus::Complete
                },
                next < self.workers@.len() ==> old(self).workers@[next as int]@.phase
                    != Phase::Stopped,
            decreases self.workers@.len() - next,
        {
            if self.workers[next].phase() != Phase::Stopped {
                status = ShutdownStatus::WaitingFor(next);
                break ;
            }
            self.workers[next].join();
            next = next + 1;
        }
        proof {
            stopped_run_extends(old(self)@, 0, next as int);
            assert(self@.workers =~= old(self)@.shutdown().workers);
            shutdown_keeps_valid(old(self)@);
        }
        status
    }

    /// The number of workers, which never changes.
    pub fn size(&self) -> (size: usize)
        ensures
            size == self@.size(),
    {
        self.workers.len()
    }

    /// Whether the pool still accepts jobs, that is, was not shut down.
    pub fn is_accepting(&self) -> (accepting: bool)
        ensures
            accepting == self@.accepting,
    {
        self.sender.is_some()
    }

    /// The number of jobs that wait in the queue.
    pub fn queued(&self) -> (queued: usize)
        requires
            self.wf(),
        ensures
            queued == self@.pending().len(),
    {
        self.channel.len()
    }

    /// The worker inside the guarded read, if any.
    pub fn reader(&self) -> (reader: Option<usize>)
        ensures
            match reader {
                Some(w) => self@.guard == Some(w as int),
                None => self@.guard is None,
            },
    {
        self.guard.holder()
    }

    /// A copy of worker `worker` as it stands, if there is such a worker.
    pub fn worker(&self, worker: usize) -> (found: Option<Worker>)
        ensures
            match found {
                Some(w) => self@.has_worker(worker as int) && w@ == self@.workers[worker as int],
                None => !self@.has_worker(worker as int),
            },
    {
        if worker < self.workers.len() {
            Some(self.workers[worker])
        } else {
            None
        }
    }
}

} // verus!
