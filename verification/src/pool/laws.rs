//! What holds of the pool's state machine, proved over its model.

use crate::pool::model::{
    submitted, without_shutdown, Dequeue, Event, JobStatus, PoolState, ShutdownStatus,
};
use crate::pool::worker::{Outcome, Phase};
use vstd::prelude::*;

verus! {

/// A new pool of at least one worker is in a valid state.
pub proof fn init_is_valid<J>(size: nat)
    requires
        size >= 1,
    ensures
        PoolState::<J>::init(size).valid(),
{
}

/// A submission keeps the state valid.
pub proof fn submit_keeps_valid<J>(s: PoolState<J>, job: J)
    requires
        s.valid(),
    ensures
        s.submit(job).valid(),
{
}

/// An attempt to dequeue keeps the state valid.
pub proof fn dequeue_keeps_valid<J>(s: PoolState<J>, w: int)
    requires
        s.valid(),
    ensures
        s.dequeue(w).valid(),
{
}

/// The end of a job keeps the state valid.
pub proof fn finish_keeps_valid<J>(s: PoolState<J>, w: int, outcome: Outcome)
    requires
        s.valid(),
    ensures
        s.finish(w, outcome).valid(),
{
}

/// Past a run of stopped workers the count of stopped workers goes on from
/// the end of the run.
pub proof fn stopped_run_extends<J>(s: PoolState<J>, from: int, to: int)
    requires
        0 <= from <= to <= s.workers.len(),
        forall|w: int| from <= w < to ==> (#[trigger] s.workers[w]).phase == Phase::Stopped,
    ensures
        s.stopped_from(from) == s.stopped_from(to),
    decreases to - from,
{
    if from < to {
        stopped_run_extends(s, from + 1, to);
    }
}

/// The first running worker is a worker that runs, with none but stopped
/// workers before it; if there is none, every worker has stopped.
pub proof fn first_running_is_first<J>(s: PoolState<J>)
    ensures
        0 <= s.first_running() <= s.workers.len(),
        forall|w: int| 0 <= w < s.first_running() ==> (#[trigger] s.workers[w]).phase == Phase::Stopped,
        s.first_running() < s.workers.len() ==> s.workers[s.first_running()].phase != Phase::Stopped,
{
    stopped_from_is_first(s, 0);
}

/// Counting from `from`, the count ends at the first worker that runs.
pub proof fn stopped_from_is_first<J>(s: PoolState<J>, from: int)
    requires
        0 <= from <= s.workers.len(),
    ensures
        from <= s.stopped_from(from) <= s.workers.len(),
        forall|w: int| from <= w < s.stopped_from(from) ==> (#[trigger] s.workers[w]).phase == Phase::Stopped,
        s.stopped_from(from) < s.workers.len() ==> s.workers[s.stopped_from(from)].phase != Phase::Stopped,
    decreases s.workers.len() - from,
{
    if from < s.workers.len() && s.workers[from].phase == Phase::Stopped {
        stopped_from_is_first(s, from + 1);
    }
}

/// A shutdown keeps the state valid.
pub proof fn shutdown_keeps_valid<J>(s: PoolState<J>)
    requires
        s.valid(),
    ensures
        s.shutdown().valid(),
{
    first_running_is_first(s);
}

/// Every event keeps the state valid.
pub proof fn step_keeps_valid<J>(s: PoolState<J>, event: Event<J>)
    requires
        s.valid(),
    ensures
        s.step(event).valid(),
{
    match event {
        Event::Submit(job) => submit_keeps_valid(s, job),
        Event::Dequeue(w) => dequeue_keeps_valid(s, w),
        Event::Finish(w, outcome) => finish_keeps_valid(s, w, outcome),
        Event::Shutdown => shutdown_keeps_valid(s),
    }
}

/// Whatever happens to a pool, in whatever order, its state stays valid. So
/// what validity says holds of every state that a pool can reach: at most one
/// worker is inside the guarded read, no worker holds the guard while it
/// executes a job, a worker has stopped only if the channel was closed and
/// drained, and every job is queued, in the hands of exactly one worker, or
/// has ended.
pub proof fn run_keeps_valid<J>(s: PoolState<J>, events: Seq<Event<J>>)
    requires
        s.valid(),
    ensures
        s.run(events).valid(),
    decreases events.len(),
{
    if events.len() > 0 {
        run_keeps_valid(s, events.drop_last());
        step_keeps_valid(s.run(events.drop_last()), events.last());
    }
}

/// A pool of `size` workers, all idle, with at least `size` jobs in its
/// queue, runs `size` jobs at once: when each worker has tried once to
/// dequeue, every worker executes a job of its own, the jobs are the `size`
/// oldest in the order of the workers, and the read guard is free again.
/// No job has to end for another to start.
pub proof fn workers_run_at_once<J>(s: PoolState<J>)
    requires
        s.valid(),
        forall|w: int| 0 <= w < s.size() ==> (#[trigger] s.workers[w]).phase == Phase::Idle,
        s.pending().len() >= s.size(),
    ensures
        s.serve(s.size()).guard is None,
        s.serve(s.size()).taken == s.taken + s.size(),
        forall|w: int|
            0 <= w < s.size() ==> {
                &&& (#[trigger] s.serve(s.size()).workers[w]).phase == Phase::Executing
                &&& s.serve(s.size()).in_hand[w] == Some(s.taken + w)
                &&& s.serve(w).dequeued(w) == Dequeue::Job(s.jobs[s.taken + w])
            },
{
    served_workers_execute(s, s.size());
}

/// The first `count` workers of such a pool execute after their turn, and
/// the others are still idle.
pub proof fn served_workers_execute<J>(s: PoolState<J>, count: int)
    requires
        s.valid(),
        forall|w: int| 0 <= w < s.size() ==> (#[trigger] s.workers[w]).phase == Phase::Idle,
        0 <= count <= s.size(),
        s.pending().len() >= count,
    ensures
        s.serve(count).valid(),
        s.serve(count).guard is None,
        s.serve(count).jobs == s.jobs,
        s.serve(count).taken == s.taken + count,
        s.serve(count).workers.len() == s.workers.len(),
        forall|w: int|
            0 <= w < count ==> {
                &&& (#[trigger] s.serve(count).workers[w]).phase == Phase::Executing
                &&& s.serve(count).in_hand[w] == Some(s.taken + w)
                &&& s.serve(w).dequeued(w) == Dequeue::Job(s.jobs[s.taken + w])
            },
        forall|w: int|
            count <= w < s.size() ==> (#[trigger] s.serve(count).workers[w]).phase == Phase::Idle,
    decreases count,
{
    if count > 0 {
        served_workers_execute(s, count - 1);
        let before = s.serve(count - 1);
        assert(before.workers[count - 1].phase == Phase::Idle);
        dequeue_keeps_valid(before, count - 1);
        assert forall|w: int| 0 <= w < count implies {
            &&& (#[trigger] s.serve(count).workers[w]).phase == Phase::Executing
            &&& s.serve(count).in_hand[w] == Some(s.taken + w)
            &&& s.serve(w).dequeued(w) == Dequeue::Job(s.jobs[s.taken + w])
        } by {
            if w < count - 1 {
                assert(before.workers[w].phase == Phase::Executing);
            }
        }
    } else {
        assert(s.guard is None) by {
            if s.guard is Some {
                assert(s.workers[s.guard->0].phase == Phase::Receiving);
            }
        }
    }
}

/// A complete shutdown is a barrier. When every worker has stopped, the
/// queue is empty, no job is in any worker's hands, and every job that the
/// pool ever accepted has run to its end.
pub proof fn shutdown_is_a_barrier<J>(s: PoolState<J>)
    requires
        s.valid(),
        s.shutdown_status() == ShutdownStatus::Complete,
    ensures
        s.all_stopped(),
        s.shutdown().all_joined(),
        s.pending() == Seq::<J>::empty(),
        forall|w: int| 0 <= w < s.size() ==> (#[trigger] s.in_hand[w]) is None,
        forall|t: int| 0 <= t < s.jobs.len() ==> (#[trigger] s.status[t]).ended(),
{
    first_running_is_first(s);
    assert(s.workers[0].phase == Phase::Stopped);
    assert(s.pending() =~= Seq::<J>::empty());
    assert forall|t: int| 0 <= t < s.jobs.len() implies (#[trigger] s.status[t]).ended() by {
        match s.status[t] {
            JobStatus::Running(w) => {
                assert(s.workers[w].phase == Phase::Stopped);
            },
            _ => {},
        }
    }
}

/// No event loses, reorders or repeats a job, and a job only moves forward.
/// The jobs accepted so far stay in the ledger at their places. A queued job
/// stays queued or goes to one worker; a job in a worker's hands stays with
/// that worker or ends; a job that has ended keeps its outcome for good. So
/// a job is taken at most once and ends at most once.
pub proof fn jobs_move_forward<J>(s: PoolState<J>, event: Event<J>, t: int)
    requires
        s.valid(),
        0 <= t < s.jobs.len(),
    ensures
        s.step(event).jobs.len() >= s.jobs.len(),
        s.step(event).jobs[t] == s.jobs[t],
        s.step(event).status[t].rank() >= s.status[t].rank(),
        s.status[t] is Running && s.step(event).status[t] is Running ==> s.step(event).status[t]
            == s.status[t],
        s.status[t].ended() ==> s.step(event).status[t] == s.status[t],
{
}

/// The same over any run of events.
pub proof fn jobs_move_forward_in_runs<J>(s: PoolState<J>, events: Seq<Event<J>>, t: int)
    requires
        s.valid(),
        0 <= t < s.jobs.len(),
    ensures
        s.run(events).jobs.len() >= s.jobs.len(),
        s.run(events).jobs[t] == s.jobs[t],
        s.run(events).status[t].rank() >= s.status[t].rank(),
        s.status[t] is Running && s.run(events).status[t] is Running ==> s.run(events).status[t]
            == s.status[t],
        s.status[t].ended() ==> s.run(events).status[t] == s.status[t],
    decreases events.len(),
{
    if events.len() > 0 {
        let before = s.run(events.drop_last());
        jobs_move_forward_in_runs(s, events.drop_last(), t);
        run_keeps_valid(s, events.drop_last());
        jobs_move_forward(before, events.last(), t);
    }
}

/// Jobs leave the queue in the order in which they were submitted: the job
/// that a worker is handed is the oldest that no worker has taken.
pub proof fn jobs_are_served_in_order<J>(s: PoolState<J>, w: int)
    requires
        s.valid(),
        s.dequeued(w) is Job,
    ensures
        s.dequeued(w) == Dequeue::Job(s.pending()[0]),
        s.dequeue(w).pending() == s.pending().skip(1),
        s.dequeue(w).status[s.taken as int] == JobStatus::Running(w),
{
    assert(s.dequeue(w).pending() =~= s.pending().skip(1));
}

/// After a shutdown the pool accepts nothing: a submission is refused and
/// changes nothing.
pub proof fn submit_after_shutdown_is_refused<J>(s: PoolState<J>, job: J)
    ensures
        !s.shutdown().accepting,
        s.shutdown().submit(job) == s.shutdown(),
{
}

/// A pool that was shut down never accepts again: whatever happens to it
/// later, no job is added to its ledger.
pub proof fn shut_down_pool_stays_shut<J>(s: PoolState<J>, events: Seq<Event<J>>)
    requires
        !s.accepting,
    ensures
        !s.run(events).accepting,
        s.run(events).jobs == s.jobs,
    decreases events.len(),
{
    if events.len() > 0 {
        shut_down_pool_stays_shut(s, events.drop_last());
    }
}

/// Shutting down twice is shutting down once: the second call finds the
/// producer end gone and the joined workers joined, reports what the first
/// reported, and changes nothing.
pub proof fn shutdown_is_idempotent<J>(s: PoolState<J>)
    ensures
        s.shutdown().shutdown() == s.shutdown(),
        s.shutdown().shutdown_status() == s.shutdown_status(),
{
    same_phases_same_count(s, s.shutdown(), 0);
    assert(s.shutdown().shutdown().workers =~= s.shutdown().workers);
}

/// The count of stopped workers depends on the workers' phases alone.
pub proof fn same_phases_same_count<J>(a: PoolState<J>, b: PoolState<J>, from: int)
    requires
        a.workers.len() == b.workers.len(),
        forall|w: int|
            0 <= w < a.workers.len() ==> (#[trigger] a.workers[w]).phase == (#[trigger] b.workers[w]).phase,
    ensures
        a.stopped_from(from) == b.stopped_from(from),
    decreases a.workers.len() - from,
{
    if 0 <= from < a.workers.len() && a.workers[from].phase == Phase::Stopped {
        assert(b.workers[from].phase == Phase::Stopped);
        same_phases_same_count(a, b, from + 1);
    } else if 0 <= from < a.workers.len() {
        assert(b.workers[from].phase == a.workers[from].phase);
    }
}

/// The read guard never covers the execution of a job. In a valid state the
/// worker that holds the guard is inside the read, no other worker is, and
/// so every worker that executes a job does so without the guard.
pub proof fn guard_never_covers_execution<J>(s: PoolState<J>, w: int)
    requires
        s.valid(),
        s.has_worker(w),
    ensures
        s.workers[w].phase == Phase::Executing ==> s.guard != Some(w),
        s.workers[w].phase == Phase::Receiving ==> s.guard == Some(w),
        forall|v: int|
            s.has_worker(v) && v != w && s.workers[w].phase == Phase::Receiving ==> (
            #[trigger] s.workers[v]).phase != Phase::Receiving,
{
}

/// Until a pool is shut down it accepts every job: after events among which
/// there is no shutdown, the ledger holds what it held, then the submitted
/// jobs in the order of their submission, and nothing else.
pub proof fn every_submission_is_accepted<J>(s: PoolState<J>, events: Seq<Event<J>>)
    requires
        s.accepting,
        without_shutdown(events),
    ensures
        s.run(events).accepting,
        s.run(events).jobs == s.jobs + submitted(events),
    decreases events.len(),
{
    if events.len() > 0 {
        let earlier = events.drop_last();
        assert(without_shutdown(earlier)) by {
            assert forall|i: int| 0 <= i < earlier.len() implies !((#[trigger] earlier[i]) is Shutdown) by {
                assert(earlier[i] == events[i]);
            }
        }
        every_submission_is_accepted(s, earlier);
        assert(!(events[events.len() - 1] is Shutdown));
        assert(s.run(events).jobs =~= s.jobs + submitted(events));
    } else {
        assert(s.jobs + submitted(events) =~= s.jobs);
    }
}

/// Whatever happened to a pool of at least one worker since it was made:
/// once a shutdown is complete, no job waits, none is in a worker's hands,
/// and every job that the pool accepted has run to its end.
pub proof fn complete_shutdown_leaves_no_job_behind<J>(size: nat, events: Seq<Event<J>>)
    requires
        size >= 1,
        PoolState::<J>::init(size).run(events).shutdown_status() == ShutdownStatus::Complete,
    ensures
        PoolState::<J>::init(size).run(events).pending() == Seq::<J>::empty(),
        forall|w: int|
            0 <= w < size ==> (#[trigger] PoolState::<J>::init(size).run(events).in_hand[w]) is None,
        forall|t: int|
            0 <= t < PoolState::<J>::init(size).run(events).jobs.len() ==> (
            #[trigger] PoolState::<J>::init(size).run(events).status[t]).ended(),
{
    let s = PoolState::<J>::init(size);
    init_is_valid::<J>(size);
    run_keeps_valid(s, events);
    pool_keeps_its_size(s, events);
    shutdown_is_a_barrier(s.run(events));
}

/// The number of workers never changes.
pub proof fn pool_keeps_its_size<J>(s: PoolState<J>, events: Seq<Event<J>>)
    ensures
        s.run(events).workers.len() == s.workers.len(),
    decreases events.len(),
{
    if events.len() > 0 {
        pool_keeps_its_size(s, events.drop_last());
    }
}

} // verus!
