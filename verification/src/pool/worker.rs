//! One worker: its identity, the state of its loop and the slot that holds
//! its thread handle.
//!
//! A running worker is idle, inside the guarded read, or executing a job. It
//! stops for one reason only, a read that reported the channel closed, and a
//! stopped worker never runs again. A fault inside a job is contained at the
//! loop's boundary: it is counted and the worker goes on with the next read,
//! so a failing job never costs the pool a worker.

use vstd::prelude::*;

verus! {

/// Where a worker's loop stands.
#[derive(Clone, Copy, PartialEq, Eq, Debug, Structural)]
pub enum Phase {
    /// Running, without a job and outside the guarded read.
    Idle,
    /// Running, inside the guarded read and waiting for the next job.
    Receiving,
    /// Running a job, outside the guarded read.
    Executing,
    /// The loop has ended.
    Stopped,
}

/// How a job ended.
#[derive(Clone, Copy, PartialEq, Eq, Debug, Structural)]
pub enum Outcome {
    /// The job returned.
    Completed,
    /// The job failed and the failure was contained.
    Faulted,
}

/// The abstract state of a worker.
pub struct WorkerState {
    /// The worker's index in its pool.
    pub id: int,
    /// Where its loop stands.
    pub phase: Phase,
    /// Whether its thread has been joined, that is, its handle slot is empty.
    pub joined: bool,
    /// How many of its jobs failed; the count sticks at `usize::MAX`.
    pub faults: int,
}

impl WorkerState {
    /// Worker `id` right after it was started.
    pub open spec fn started(id: int) -> Self {
        WorkerState { id, phase: Phase::Idle, joined: false, faults: 0 }
    }

    /// The loop is active.
    pub open spec fn running(self) -> bool {
        self.phase != Phase::Stopped
    }

    /// The same worker in another phase.
    pub open spec fn at(self, phase: Phase) -> Self {
        WorkerState { phase, ..self }
    }

    /// An idle worker enters the guarded read.
    pub open spec fn enter_read(self) -> Self {
        if self.phase == Phase::Idle {
            self.at(Phase::Receiving)
        } else {
            self
        }
    }

    /// A worker inside the guarded read leaves it with a job.
    pub open spec fn take_job(self) -> Self {
        if self.phase == Phase::Receiving {
            self.at(Phase::Executing)
        } else {
            self
        }
    }

    /// A worker inside the guarded read leaves it for good.
    pub open spec fn stop(self) -> Self {
        if self.phase == Phase::Receiving {
            self.at(Phase::Stopped)
        } else {
            self
        }
    }

    /// The job in the hands of an executing worker ended with `outcome`.
    pub open spec fn finish(self, outcome: Outcome) -> Self {
        if self.phase == Phase::Executing {
            WorkerState {
                phase: Phase::Idle,
                faults: if outcome == Outcome::Faulted && self.faults < usize::MAX {
                    self.faults + 1
                } else {
                    self.faults
                },
                ..self
            }
        } else {
            self
        }
    }

    /// The thread of a stopped worker is joined; joining again changes
    /// nothing, and a running worker cannot be joined.
    pub open spec fn join(self) -> Self {
        if self.phase == Phase::Stopped {
            WorkerState { joined: true, ..self }
        } else {
            self
        }
    }
}

/// A worker of a pool.
#[derive(Clone, Copy)]
pub struct Worker {
    id: usize,
    phase: Phase,
    joined: bool,
    faults: usize,
}

impl View for Worker {
    type V = WorkerState;

    closed spec fn view(&self) -> WorkerState {
        WorkerState {
            id: self.id as int,
            phase: self.phase,
            joined: self.joined,
            faults: self.faults as int,
        }
    }
}

impl Worker {
    /// Starts worker `id`: idle, with its thread handle in place.
    pub fn new(id: usize) -> (worker: Self)
        ensures
            worker@ == WorkerState::started(id as int),
    {
        Worker { id, phase: Phase::Idle, joined: false, faults: 0 }
    }

    /// The worker's index in its pool.
    pub fn id(&self) -> (id: usize)
        ensures
            id == self@.id,
    {
        self.id
    }

    /// Where the worker's loop stands.
    pub fn phase(&self) -> (phase: Phase)
        ensures
            phase == self@.phase,
    {
        self.phase
    }

    /// Whether the worker's thread has been joined.
    pub fn is_joined(&self) -> (joined: bool)
        ensures
            joined == self@.joined,
    {
        self.joined
    }

    /// How many jobs of this worker failed.
    pub fn faults(&self) -> (faults: usize)
        ensures
            faults == self@.faults,
    {
        self.faults
    }

    /// Moves an idle worker into the guarded read. Any other worker stays as
    /// it is.
    pub fn enter_read(&mut self) -> (moved: bool)
        ensures
            moved == (old(self)@.phase == Phase::Idle),
            final(self)@ == old(self)@.enter_read(),
    {
        if self.phase == Phase::Idle {
            self.phase = Phase::Receiving;
            true
        } else {
            false
        }
    }

    /// Moves a worker out of the guarded read to run the job it was handed.
    /// Any other worker stays as it is.
    pub fn take_job(&mut self) -> (moved: bool)
        ensures
            moved == (old(self)@.phase == Phase::Receiving),
            final(self)@ == old(self)@.take_job(),
    {
        if self.phase == Phase::Receiving {
            self.phase = Phase::Executing;
            true
        } else {
            false
        }
    }

    /// Ends the loop of a worker whose read reported the channel closed. Any
    /// worker that is not inside the guarded read stays as it is.
    pub fn stop(&mut self) -> (moved: bool)
        ensures
            moved == (old(self)@.phase == Phase::Receiving),
            final(self)@ == old(self)@.stop(),
    {
        if self.phase == Phase::Receiving {
            self.phase = Phase::Stopped;
            true
        } else {
            false
        }
    }

    /// Ends the job in the hands of an executing worker: the worker is idle
    /// again whatever the outcome, and a fault is counted. Any other worker
    /// stays as it is.
    pub fn finish(&mut self, outcome: Outcome) -> (moved: bool)
        ensures
            moved == (old(self)@.phase == Phase::Executing),
            final(self)@ == old(self)@.finish(outcome),
    {
        if self.phase == Phase::Executing {
            self.phase = Phase::Idle;
            if outcome == Outcome::Faulted && self.faults < usize::MAX {
                self.faults = self.faults + 1;
            }
            true
        } else {
            false
        }
    }

    /// Takes the thread handle out of its slot. Only the first call on a
    /// stopped worker does so; it alone returns `true`.
    pub fn join(&mut self) -> (joined_now: bool)
        ensures
            joined_now == (old(self)@.phase == Phase::Stopped && !old(self)@.joined),
            final(self)@ == old(self)@.join(),
    {
        if self.phase == Phase::Stopped && !self.joined {
            self.joined = true;
            true
        } else {
            false
        }
    }
}

} // verus!
