//! The work channel: an unbounded FIFO hand-off queue between the producer
//! ends that submit jobs and the one consumer end that all workers share.
//!
//! Closing is producer-driven and drains first: jobs that were queued before
//! the last producer end was given up are still delivered, and only a drained
//! channel without producers reports that it is closed.

use std::collections::VecDeque;
use vstd::prelude::*;

verus! {

/// What one read of the consumer end yields.
pub enum Delivery<J> {
    /// The job at the head of the queue; it now belongs to the reader alone.
    Job(J),
    /// Nothing is queued but a producer end is alive: the reader has to wait.
    Empty,
    /// Nothing is queued and no producer end is left: no job will ever come.
    Closed,
}

/// A refused `send`, carrying the job back to its submitter.
pub struct SendError<J> {
    pub job: J,
}

/// One producer end of a work channel. It is made by the channel and given
/// up by handing it back to [`WorkChannel::release`].
pub struct Producer {
    token: (),
}

/// The abstract state of a work channel.
pub struct ChannelState<J> {
    /// The jobs that were sent and not yet received, oldest first.
    pub pending: Seq<J>,
    /// How many producer ends are alive.
    pub producers: nat,
    /// Whether the consumer end still exists.
    pub consumer: bool,
}

impl<J> ChannelState<J> {
    /// The state of a channel that was just made.
    pub open spec fn fresh() -> Self {
        ChannelState { pending: Seq::empty(), producers: 1, consumer: true }
    }

    /// A job can be handed over: a producer end is alive and the consumer end
    /// has not been torn down.
    pub open spec fn accepts(self) -> bool {
        self.producers > 0 && self.consumer
    }

    /// Nothing is queued and no producer end is left.
    pub open spec fn closed(self) -> bool {
        self.pending.len() == 0 && self.producers == 0
    }

    /// The state after an attempt to send `job`.
    pub open spec fn send(self, job: J) -> Self {
        if self.accepts() {
            ChannelState { pending: self.pending.push(job), ..self }
        } else {
            self
        }
    }

    /// What a read yields in this state.
    pub open spec fn head(self) -> Delivery<J> {
        if self.pending.len() > 0 {
            Delivery::Job(self.pending[0])
        } else if self.producers == 0 {
            Delivery::Closed
        } else {
            Delivery::Empty
        }
    }

    /// The state after a read.
    pub open spec fn receive(self) -> Self {
        if self.pending.len() > 0 {
            ChannelState { pending: self.pending.skip(1), ..self }
        } else {
            self
        }
    }

    /// The state after one producer end was given up.
    pub open spec fn release(self) -> Self {
        if self.producers > 0 {
            ChannelState { producers: (self.producers - 1) as nat, ..self }
        } else {
            self
        }
    }

    /// The state after the consumer end was torn down: what was queued is
    /// discarded with it.
    pub open spec fn disconnect(self) -> Self {
        ChannelState { pending: Seq::empty(), consumer: false, ..self }
    }
}

/// An unbounded FIFO queue of jobs with counted producer ends.
pub struct WorkChannel<J> {
    queue: VecDeque<J>,
    producers: usize,
    consumer: bool,
}

impl<J> View for WorkChannel<J> {
    type V = ChannelState<J>;

    closed spec fn view(&self) -> ChannelState<J> {
        ChannelState {
            pending: self.queue@,
            producers: self.producers as nat,
            consumer: self.consumer,
        }
    }
}

impl<J> WorkChannel<J> {
    /// Makes an empty channel together with its first producer end.
    pub fn new() -> (made: (Self, Producer))
        ensures
            made.0@ == ChannelState::<J>::fresh(),
    {
        (WorkChannel { queue: VecDeque::new(), producers: 1, consumer: true }, Producer { token: () })
    }

    /// Enqueues `job` at the tail and never blocks. The job comes back in the
    /// error when no producer end is alive or the consumer end is gone.
    pub fn send(&mut self, producer: &Producer, job: J) -> (sent: Result<(), SendError<J>>)
        ensures
            final(self)@ == old(self)@.send(job),
            sent == if old(self)@.accepts() {
                Ok::<(), SendError<J>>(())
            } else {
                Err::<(), SendError<J>>(SendError { job })
            },
    {
        if self.producers > 0 && self.consumer {
            self.queue.push_back(job);
            Ok(())
        } else {
            Err(SendError { job })
        }
    }

    /// Takes the job at the head of the queue, if there is one. Otherwise says
    /// whether a job may still come (`Empty`) or never will (`Closed`).
    pub fn receive(&mut self) -> (delivery: Delivery<J>)
        ensures
            delivery == old(self)@.head(),
            final(self)@ == old(self)@.receive(),
    {
        match self.queue.pop_front() {
            Some(job) => {
                assert(self.queue@ =~= old(self).queue@.skip(1));
                Delivery::Job(job)
            },
            None => if self.producers == 0 {
                Delivery::Closed
            } else {
                Delivery::Empty
            },
        }
    }

    /// Makes one more producer end from an existing one. Fails only when the
    /// count of ends cannot grow: at the machine's limit, or when the channel
    /// believes that no end is alive.
    pub fn duplicate(&mut self, producer: &Producer) -> (copy: Option<Producer>)
        ensures
            copy.is_some() <==> 0 < old(self)@.producers < usize::MAX,
            final(self)@ == (ChannelState {
                producers: if copy.is_some() {
                    old(self)@.producers + 1
                } else {
                    old(self)@.producers
                },
                ..old(self)@
            }),
    {
        if 0 < self.producers && self.producers < usize::MAX {
            self.producers = self.producers + 1;
            Some(Producer { token: () })
        } else {
            None
        }
    }

    /// Gives one producer end up. With the last one gone the channel closes
    /// as soon as it is drained.
    pub fn release(&mut self, producer: Producer)
        ensures
            final(self)@ == old(self)@.release(),
    {
        if self.producers > 0 {
            self.producers = self.producers - 1;
        }
    }

    /// Tears the consumer end down and discards what was still queued.
    pub fn disconnect(&mut self)
        ensures
            final(self)@ == old(self)@.disconnect(),
    {
        self.queue.clear();
        self.consumer = false;
    }

    /// The number of jobs that wait in the queue.
    pub fn len(&self) -> (n: usize)
        ensures
            n == self@.pending.len(),
    {
        self.queue.len()
    }

    /// Whether no job waits in the queue.
    pub fn is_empty(&self) -> (empty: bool)
        ensures
            empty == (self@.pending.len() == 0),
    {
        self.queue.len() == 0
    }

    /// Whether the channel is drained and without producers, so that every
    /// further read reports `Closed`.
    pub fn is_closed(&self) -> (closed: bool)
        ensures
            closed == self@.closed(),
    {
        self.queue.len() == 0 && self.producers == 0
    }
}

} // verus!
