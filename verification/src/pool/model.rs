//! The pool as a state machine.
//!
//! A pool's state is the set of its workers, the slot of its producer end,
//! the holder of the read guard, and a ledger of every job it ever accepted.
//! The events are a submission, one worker's attempt to dequeue, the end of a
//! job, and a shutdown. Each event is a total function on states; the pool's
//! executable operations are proved to compute exactly these functions.

use crate::pool::worker::{Outcome, Phase, WorkerState};
use vstd::prelude::*;

verus! {

/// Where an accepted job stands. A job only ever moves forward: from the
/// queue into the hands of one worker, and from there to its end.
pub enum JobStatus {
    /// Waiting in the queue.
    Queued,
    /// In the hands of the worker with this index.
    Running(int),
    /// Ended, and it returned.
    Completed,
    /// Ended, and it failed.
    Faulted,
}

impl JobStatus {
    /// How far along its way a job is.
    pub open spec fn rank(self) -> int {
        match self {
            JobStatus::Queued => 0,
            JobStatus::Running(_) => 1,
            JobStatus::Completed => 2,
            JobStatus::Faulted => 2,
        }
    }

    /// The job has run to its end.
    pub open spec fn ended(self) -> bool {
        self is Completed || self is Faulted
    }

    /// The status of a job that ended with `outcome`.
    pub open spec fn of(outcome: Outcome) -> Self {
        match outcome {
            Outcome::Completed => JobStatus::Completed,
            Outcome::Faulted => JobStatus::Faulted,
        }
    }
}

/// What one attempt of a worker to dequeue yields.
pub enum Dequeue<J> {
    /// The oldest queued job. The worker has left the guarded read and owns
    /// the job until it has run.
    Job(J),
    /// The channel is closed: the worker has left the guarded read and its
    /// loop has ended.
    Closed,
    /// The worker is inside the guarded read and nothing is queued yet: it
    /// waits there, holding the guard.
    Empty,
    /// Another worker is inside the guarded read: this one waits outside.
    Contended,
    /// There is no such worker, or it is not about to read: it executes a job
    /// or has stopped.
    NotWaiting,
}

/// How far a shutdown has come.
#[derive(Clone, Copy, PartialEq, Eq, Debug, Structural)]
pub enum ShutdownStatus {
    /// Every worker has stopped and has been joined.
    Complete,
    /// All workers before this one are joined; this one is still running and
    /// has to stop before the shutdown can go on.
    WaitingFor(usize),
}

/// What can happen to a pool.
pub enum Event<J> {
    /// This job is submitted.
    Submit(J),
    /// The worker with this index tries to dequeue.
    Dequeue(int),
    /// The job in the hands of the worker with this index ends.
    Finish(int, Outcome),
    /// The pool is shut down, as far as that goes without waiting.
    Shutdown,
}

/// The abstract state of a pool of workers over jobs of type `J`.
pub struct PoolState<J> {
    /// The workers, in the order in which they were created.
    pub workers: Seq<WorkerState>,
    /// Whether the producer end is still in its slot.
    pub accepting: bool,
    /// The worker inside the guarded read, if any.
    pub guard: Option<int>,
    /// Every job that was accepted, in the order of submission.
    pub jobs: Seq<J>,
    /// Where each of these jobs stands.
    pub status: Seq<JobStatus>,
    /// How many jobs have left the queue. The queue holds the rest.
    pub taken: nat,
    /// For each worker, the index of the job in its hands.
    pub in_hand: Seq<Option<int>>,
}

impl<J> PoolState<J> {
    /// A new pool of `size` workers.
    pub open spec fn init(size: nat) -> Self {
        PoolState {
            workers: Seq::new(size, |w: int| WorkerState::started(w)),
            accepting: true,
            guard: None,
            jobs: Seq::empty(),
            status: Seq::empty(),
            taken: 0,
            in_hand: Seq::new(size, |w: int| None),
        }
    }

    /// The number of workers.
    pub open spec fn size(self) -> int {
        self.workers.len() as int
    }

    /// The queue: the accepted jobs that no worker has taken, oldest first.
    pub open spec fn pending(self) -> Seq<J> {
        self.jobs.skip(self.taken as int)
    }

    /// `w` is a worker of this pool.
    pub open spec fn has_worker(self, w: int) -> bool {
        0 <= w < self.workers.len()
    }

    /// Every worker has stopped.
    pub open spec fn all_stopped(self) -> bool {
        forall|w: int| 0 <= w < self.workers.len() ==> (#[trigger] self.workers[w]).phase == Phase::Stopped
    }

    /// Every worker has been joined.
    pub open spec fn all_joined(self) -> bool {
        forall|w: int| 0 <= w < self.workers.len() ==> (#[trigger] self.workers[w]).joined
    }

    /// The guard and the workers' phases agree: a worker is inside the
    /// guarded read exactly when it holds the guard. So at most one worker is
    /// there, and no worker holds the guard while it executes a job.
    pub open spec fn guard_is_exclusive(self) -> bool {
        &&& self.guard matches Some(g) ==> self.has_worker(g)
        &&& forall|w: int|
            0 <= w < self.workers.len() ==> ((#[trigger] self.workers[w]).phase == Phase::Receiving
                <==> self.guard == Some(w))
    }

    /// Workers stop only at a closed channel, and only stopped workers are
    /// joined.
    pub open spec fn stops_are_clean(self) -> bool {
        &&& forall|w: int|
            0 <= w < self.workers.len() && (#[trigger] self.workers[w]).joined
                ==> self.workers[w].phase == Phase::Stopped
        &&& forall|w: int|
            0 <= w < self.workers.len() && (#[trigger] self.workers[w]).phase == Phase::Stopped
                ==> !self.accepting && self.taken == self.jobs.len()
    }

    /// The ledger accounts for every job: the queued jobs are exactly those
    /// that were not taken, and a job is in hand exactly with the one worker
    /// that executes it.
    pub open spec fn jobs_are_accounted(self) -> bool {
        &&& self.status.len() == self.jobs.len()
        &&& self.in_hand.len() == self.workers.len()
        &&& self.taken <= self.jobs.len()
        &&& forall|t: int|
            0 <= t < self.status.len() ==> ((#[trigger] self.status[t]) is Queued <==> t
                >= self.taken)
        &&& forall|t: int|
            0 <= t < self.status.len() ==> ((#[trigger] self.status[t]) matches JobStatus::Running(w)
                ==> self.has_worker(w) && self.in_hand[w] == Some(t))
        &&& forall|w: int|
            0 <= w < self.workers.len() ==> match #[trigger] self.in_hand[w] {
                Some(t) => {
                    &&& self.workers[w].phase == Phase::Executing
                    &&& 0 <= t < self.taken
                    &&& self.status[t] == JobStatus::Running(w)
                },
                None => self.workers[w].phase != Phase::Executing,
            }
    }

    /// What holds of every state that a pool can reach.
    pub open spec fn valid(self) -> bool {
        &&& self.workers.len() >= 1
        &&& forall|w: int| 0 <= w < self.workers.len() ==> (#[trigger] self.workers[w]).id == w
        &&& self.guard_is_exclusive()
        &&& self.stops_are_clean()
        &&& self.jobs_are_accounted()
    }

    /// The state after an attempt to submit `job`: an accepting pool appends
    /// it to the queue, a pool that was shut down ignores it.
    pub open spec fn submit(self, job: J) -> Self {
        if self.accepting {
            PoolState {
                jobs: self.jobs.push(job),
                status: self.status.push(JobStatus::Queued),
                ..self
            }
        } else {
            self
        }
    }

    /// What worker `w` gets when it tries to dequeue. An idle worker first
    /// needs the guard; with the guard in hand it gets the oldest queued job,
    /// or learns that the channel is closed, or has to wait.
    pub open spec fn dequeued(self, w: int) -> Dequeue<J> {
        if !self.has_worker(w) {
            Dequeue::NotWaiting
        } else if self.workers[w].phase == Phase::Idle && self.guard is Some {
            Dequeue::Contended
        } else if self.workers[w].phase == Phase::Idle || self.workers[w].phase
            == Phase::Receiving {
            if self.taken < self.jobs.len() {
                Dequeue::Job(self.jobs[self.taken as int])
            } else if self.accepting {
                Dequeue::Empty
            } else {
                Dequeue::Closed
            }
        } else {
            Dequeue::NotWaiting
        }
    }

    /// The state after worker `w` tried to dequeue.
    pub open spec fn dequeue(self, w: int) -> Self {
        match self.dequeued(w) {
            Dequeue::Job(_) => PoolState {
                workers: self.workers.update(w, self.workers[w].at(Phase::Executing)),
                guard: None,
                status: self.status.update(self.taken as int, JobStatus::Running(w)),
                taken: self.taken + 1,
                in_hand: self.in_hand.update(w, Some(self.taken as int)),
                ..self
            },
            Dequeue::Closed => PoolState {
                workers: self.workers.update(w, self.workers[w].at(Phase::Stopped)),
                guard: None,
                ..self
            },
            Dequeue::Empty => PoolState {
                workers: self.workers.update(w, self.workers[w].at(Phase::Receiving)),
                guard: Some(w),
                ..self
            },
            Dequeue::Contended => self,
            Dequeue::NotWaiting => self,
        }
    }

    /// Worker `w` executes a job, so that the end of a job can be reported
    /// for it.
    pub open spec fn can_finish(self, w: int) -> bool {
        self.has_worker(w) && self.workers[w].phase == Phase::Executing
    }

    /// The state after the job in the hands of worker `w` ended with
    /// `outcome`. The worker is idle again, whatever the outcome.
    pub open spec fn finish(self, w: int, outcome: Outcome) -> Self {
        if self.can_finish(w) {
            PoolState {
                workers: self.workers.update(w, self.workers[w].finish(outcome)),
                status: match self.in_hand[w] {
                    Some(t) => self.status.update(t, JobStatus::of(outcome)),
                    None => self.status,
                },
                in_hand: self.in_hand.update(w, None),
                ..self
            }
        } else {
            self
        }
    }

    /// The number of workers at the front of the pool, in creation order,
    /// that have stopped, counted from worker `from` on.
    pub open spec fn stopped_from(self, from: int) -> int
        decreases self.workers.len() - from,
    {
        if 0 <= from < self.workers.len() && self.workers[from].phase == Phase::Stopped {
            self.stopped_from(from + 1)
        } else {
            from
        }
    }

    /// The first worker in creation order that is still running, or the
    /// number of workers if all have stopped.
    pub open spec fn first_running(self) -> int {
        self.stopped_from(0)
    }

    /// How far a shutdown gets in this state.
    pub open spec fn shutdown_status(self) -> ShutdownStatus {
        if self.first_running() >= self.workers.len() {
            ShutdownStatus::Complete
        } else {
            ShutdownStatus::WaitingFor(self.first_running() as usize)
        }
    }

    /// The state after a shutdown: the producer end is given up, and the
    /// workers are joined in creation order up to the first that still runs.
    pub open spec fn shutdown(self) -> Self {
        PoolState {
            accepting: false,
            workers: Seq::new(
                self.workers.len(),
                |w: int|
                    if w < self.first_running() {
                        self.workers[w].join()
                    } else {
                        self.workers[w]
                    },
            ),
            ..self
        }
    }

    /// The state after `event`.
    pub open spec fn step(self, event: Event<J>) -> Self {
        match event {
            Event::Submit(job) => self.submit(job),
            Event::Dequeue(w) => self.dequeue(w),
            Event::Finish(w, outcome) => self.finish(w, outcome),
            Event::Shutdown => self.shutdown(),
        }
    }

    /// The state after `events`, one after the other.
    pub open spec fn run(self, events: Seq<Event<J>>) -> Self
        decreases events.len(),
    {
        if events.len() == 0 {
            self
        } else {
            self.run(events.drop_last()).step(events.last())
        }
    }

    /// The state after the workers `0` to `count - 1` have each tried once to
    /// dequeue, in this order.
    pub open spec fn serve(self, count: int) -> Self
        decreases count,
    {
        if count <= 0 {
            self
        } else {
            self.serve(count - 1).dequeue(count - 1)
        }
    }
}

/// The jobs that `events` submit, in their order.
pub open spec fn submitted<J>(events: Seq<Event<J>>) -> Seq<J>
    decreases events.len(),
{
    if events.len() == 0 {
        Seq::empty()
    } else {
        match events.last() {
            Event::Submit(job) => submitted(events.drop_last()).push(job),
            _ => submitted(events.drop_last()),
        }
    }
}

/// None of `events` is a shutdown.
pub open spec fn without_shutdown<J>(events: Seq<Event<J>>) -> bool {
    forall|i: int| 0 <= i < events.len() ==> !((#[trigger] events[i]) is Shutdown)
}

} // verus!
