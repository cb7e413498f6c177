//! What holds of every pool, proved of the state machine.

use crate::counting::{lemma_first_unjoined, lemma_tally_bounds, lemma_tally_update};
use crate::model::{busy_count, first_unjoined, Event, PoolView};
use crate::queue::Received;
use crate::worker::{JobOutcome, Phase, ShutdownAction, Worker, WorkerAction, WorkerState};
use vstd::prelude::*;

verus! {

/// A new pool of at least one worker satisfies the invariant.
pub proof fn lemma_init_inv<J>(size: nat)
    requires
        1 <= size <= usize::MAX,
    ensures
        PoolView::<J>::init(size).inv(),
{
    let s = PoolView::<J>::init(size);
    lemma_tally_bounds(s.workers, |w: Worker| w.state == WorkerState::Busy);
}

/// Every event that may happen leads from a state that satisfies the
/// invariant to one that satisfies it.
pub proof fn lemma_step_keeps_inv<J>(s: PoolView<J>, event: Event<J>)
    requires
        s.inv(),
        s.enabled(event),
    ensures
        s.step(event).inv(),
{
    let busy = |w: Worker| w.state == WorkerState::Busy;
    match event {
        Event::Submit(_) => {},
        Event::Poll(w) => {
            match s.queue.offer() {
                Received::Job(_) => {
                    lemma_tally_update(
                        s.workers,
                        busy,
                        w,
                        Worker { state: WorkerState::Busy, ..s.workers[w] },
                    );
                },
                Received::Empty => {},
                Received::Closed => {
                    lemma_tally_update(
                        s.workers,
                        busy,
                        w,
                        Worker { state: WorkerState::Exited, ..s.workers[w] },
                    );
                },
            }
        },
        Event::Finish(w, _) => {
            lemma_tally_update(
                s.workers,
                busy,
                w,
                Worker { state: WorkerState::Idle, ..s.workers[w] },
            );
        },
        Event::ShutdownStep => {
            lemma_first_unjoined(s.workers);
        },
        Event::Joined(w) => {
            lemma_tally_update(s.workers, busy, w, Worker { joined: true, ..s.workers[w] });
        },
    }
}

/// Every state that a pool reaches satisfies the invariant.
pub proof fn lemma_run_keeps_inv<J>(s: PoolView<J>, trace: Seq<Event<J>>)
    requires
        s.inv(),
        s.admits(trace),
    ensures
        s.run(trace).inv(),
    decreases trace.len(),
{
    if trace.len() > 0 {
        lemma_step_keeps_inv(s, trace.first());
        lemma_run_keeps_inv(s.step(trace.first()), trace.drop_first());
    }
}

/// Nothing goes back: no event takes a pool to an earlier phase, changes
/// the number of workers, returns an exited worker to its loop, or makes a
/// joined worker joinable again.
pub proof fn lemma_step_keeps_shape<J>(s: PoolView<J>, event: Event<J>)
    requires
        s.inv(),
        s.enabled(event),
    ensures
        s.step(event).phase.rank() >= s.phase.rank(),
        s.step(event).workers.len() == s.workers.len(),
        forall|i: int|
            0 <= i < s.workers.len() && (#[trigger] s.workers[i]).state == WorkerState::Exited
                ==> s.step(event).workers[i].state == WorkerState::Exited,
        forall|i: int|
            0 <= i < s.workers.len() && (#[trigger] s.workers[i]).joined ==> s.step(
                event,
            ).workers[i].joined,
{
}

/// The owner is asked to join a worker only after the intake has been
/// closed, and only a worker that has not been joined before.
pub proof fn lemma_join_follows_close<J>(s: PoolView<J>, w: usize)
    requires
        s.inv(),
        s.shutdown_action() == ShutdownAction::Join(w),
    ensures
        s.phase == Phase::ShuttingDown,
        s.queue.closed,
        s.has_worker(w as int),
        !s.workers[w as int].joined,
        s.shutdown_step() == s,
{
    lemma_first_unjoined(s.workers);
}

/// Shutting down a stopped pool changes nothing and asks for nothing.
pub proof fn lemma_shutdown_is_idempotent<J>(s: PoolView<J>)
    requires
        s.phase == Phase::Stopped,
    ensures
        s.shutdown_step() == s,
        s.shutdown_action() == ShutdownAction::Done,
{
}

/// The jobs that a pool has accepted are those that were submitted while
/// it was running, in the order of submission: no event but an accepted
/// submission adds a job, and no event removes one or moves one.
pub proof fn lemma_accepted_ledger<J>(s: PoolView<J>, trace: Seq<Event<J>>)
    requires
        s.inv(),
        s.admits(trace),
    ensures
        s.run(trace).queue.accepted() == s.queue.accepted() + s.accepted_in(trace),
    decreases trace.len(),
{
    if trace.len() == 0 {
        assert(s.queue.accepted() + s.accepted_in(trace) =~= s.queue.accepted());
    } else {
        let event = trace.first();
        let t = s.step(event);
        lemma_step_keeps_inv(s, event);
        lemma_accepted_ledger(t, trace.drop_first());
        let rest = t.accepted_in(trace.drop_first());
        match event {
            Event::Submit(job) => {
                if s.phase == Phase::Running {
                    assert(t.queue.accepted() =~= s.queue.accepted().push(job));
                    assert(s.queue.accepted().push(job) + rest =~= s.queue.accepted() + (seq![job]
                        + rest));
                }
            },
            Event::Poll(_) => {
                assert(t.queue.accepted() =~= s.queue.accepted());
            },
            _ => {},
        }
    }
}

/// At every moment the jobs handed to workers are the first so many of
/// the jobs submitted while the pool was running, and the jobs that wait
/// are the rest: jobs start in the order of their submission, each once,
/// whatever the number of workers.
pub proof fn lemma_jobs_start_in_order<J>(size: nat, trace: Seq<Event<J>>)
    requires
        1 <= size <= usize::MAX,
        PoolView::<J>::init(size).admits(trace),
    ensures
        PoolView::<J>::init(size).run(trace).queue.delivered.len() <= PoolView::<J>::init(
            size,
        ).accepted_in(trace).len(),
        PoolView::<J>::init(size).run(trace).queue.delivered == PoolView::<J>::init(
            size,
        ).accepted_in(trace).take(
            PoolView::<J>::init(size).run(trace).queue.delivered.len() as int,
        ),
        PoolView::<J>::init(size).run(trace).queue.pending == PoolView::<J>::init(
            size,
        ).accepted_in(trace).skip(
            PoolView::<J>::init(size).run(trace).queue.delivered.len() as int,
        ),
{
    let s = PoolView::<J>::init(size);
    let queue = s.run(trace).queue;
    lemma_init_inv::<J>(size);
    lemma_accepted_ledger(s, trace);
    assert(s.queue.accepted() + s.accepted_in(trace) =~= s.accepted_in(trace));
    assert(queue.delivered =~= queue.accepted().take(queue.delivered.len() as int));
    assert(queue.pending =~= queue.accepted().skip(queue.delivered.len() as int));
}

/// A stopped pool is drained: nothing waits, no worker is busy, and every
/// accepted job has been handed to a worker and has finished.
pub proof fn lemma_stopped_is_drained<J>(s: PoolView<J>)
    requires
        s.inv(),
        s.phase == Phase::Stopped,
    ensures
        s.queue.pending.len() == 0,
        busy_count(s.workers) == 0,
        s.queue.delivered == s.queue.accepted(),
        s.finished == s.queue.accepted().len(),
        forall|i: int|
            0 <= i < s.workers.len() ==> (#[trigger] s.workers[i]).state == WorkerState::Exited
                && s.workers[i].joined,
{
    assert(s.workers[0].joined);
    lemma_tally_bounds(s.workers, |w: Worker| w.state == WorkerState::Busy);
    assert(s.queue.delivered =~= s.queue.accepted());
}

/// The drain property: when a pool of at least one worker has stopped,
/// the jobs that were handed to workers are exactly the jobs submitted
/// while it was running, in that order, and each of them has finished.
pub proof fn lemma_drain<J>(size: nat, trace: Seq<Event<J>>)
    requires
        1 <= size <= usize::MAX,
        PoolView::<J>::init(size).admits(trace),
        PoolView::<J>::init(size).run(trace).phase == Phase::Stopped,
    ensures
        PoolView::<J>::init(size).run(trace).queue.delivered == PoolView::<J>::init(
            size,
        ).accepted_in(trace),
        PoolView::<J>::init(size).run(trace).finished == PoolView::<J>::init(size).accepted_in(
            trace,
        ).len(),
{
    let s = PoolView::<J>::init(size);
    lemma_init_inv::<J>(size);
    lemma_run_keeps_inv(s, trace);
    lemma_accepted_ledger(s, trace);
    lemma_stopped_is_drained(s.run(trace));
    assert(s.queue.accepted() + s.accepted_in(trace) =~= s.accepted_in(trace));
}

/// A job offered after shutdown has begun leaves no mark on the pool, so
/// nothing that happens later can hand it to a worker.
pub proof fn lemma_refused_job_is_never_run<J>(s: PoolView<J>, job: J, trace: Seq<Event<J>>)
    requires
        s.phase != Phase::Running,
    ensures
        s.submit(job) == s,
        s.submit(job).run(trace) == s.run(trace),
        s.accepted_in(seq![Event::Submit(job)] + trace) == s.accepted_in(trace),
{
    let whole = seq![Event::Submit(job)] + trace;
    assert(whole.drop_first() =~= trace);
}

/// With a single worker jobs run one after another in the order of their
/// submission: when the worker is given a job, every job handed out
/// before has finished, and the job is the oldest accepted job that has
/// not been handed out.
pub proof fn lemma_single_worker_is_serial<J>(s: PoolView<J>)
    requires
        s.inv(),
        s.workers.len() == 1,
        s.may_poll(0),
        s.queue.pending.len() > 0,
    ensures
        s.finished == s.queue.delivered.len(),
        s.directive() == WorkerAction::Run(s.queue.accepted()[s.queue.delivered.len() as int]),
        s.poll(0).queue.delivered == s.queue.accepted().take(s.queue.delivered.len() as int + 1),
{
    lemma_tally_bounds(s.workers, |w: Worker| w.state == WorkerState::Busy);
    assert(s.poll(0).queue.delivered =~= s.queue.accepted().take(s.queue.delivered.len() as int + 1));
}

/// Workers do not wait for each other: an idle worker that asks while a
/// job waits is given the oldest waiting job, however many workers are
/// busy, and is then busy beside them.
pub proof fn lemma_idle_worker_takes_waiting_job<J>(s: PoolView<J>, w: int)
    requires
        s.inv(),
        s.may_poll(w),
        s.queue.pending.len() > 0,
    ensures
        s.directive() == WorkerAction::Run(s.queue.pending.first()),
        s.poll(w).workers[w].state == WorkerState::Busy,
        busy_count(s.poll(w).workers) == busy_count(s.workers) + 1,
        s.poll(w).queue.pending == s.queue.pending.drop_first(),
{
    lemma_tally_update(
        s.workers,
        |x: Worker| x.state == WorkerState::Busy,
        w,
        Worker { state: WorkerState::Busy, ..s.workers[w] },
    );
}

/// A failed job costs the pool nothing but the job: the worker that ran it
/// is idle again, exactly as after a completed job, and is given the next
/// job like any other idle worker.
pub proof fn lemma_failure_keeps_worker<J>(s: PoolView<J>, w: int, next: J)
    requires
        s.inv(),
        s.may_finish(w),
    ensures
        s.finish(w, JobOutcome::Failed).inv(),
        s.finish(w, JobOutcome::Failed).may_poll(w),
        s.finish(w, JobOutcome::Failed).workers == s.finish(w, JobOutcome::Completed).workers,
        s.finish(w, JobOutcome::Failed).queue == s.queue,
        s.finish(w, JobOutcome::Failed).phase == s.phase,
        s.phase == Phase::Running && s.queue.pending.len() == 0 ==> s.finish(
            w,
            JobOutcome::Failed,
        ).submit(next).directive() == WorkerAction::Run(next),
{
    lemma_step_keeps_inv(s, Event::Finish(w, JobOutcome::Failed));
}

/// Every event that changes the state uses up one unit of the work that
/// is left, except an accepted submission, which adds two.
pub proof fn lemma_step_spends_work<J>(s: PoolView<J>, event: Event<J>)
    requires
        s.inv(),
        s.enabled(event),
        s.step(event) != s,
    ensures
        s.step(event).work_left() + 1 == s.work_left() + 3 * s.accepted_in(seq![event]).len(),
{
    let busy = |w: Worker| w.state == WorkerState::Busy;
    let live = |w: Worker| w.state != WorkerState::Exited;
    let unjoined = |w: Worker| !w.joined;
    let trace = seq![event];
    assert(trace.first() == event);
    assert(s.step(event).accepted_in(trace.drop_first()) =~= Seq::<J>::empty());
    match event {
        Event::Submit(job) => {
            assert(s.accepted_in(trace) =~= seq![job]);
        },
        Event::Poll(w) => {
            let next = match s.queue.offer() {
                Received::Job(_) => Worker { state: WorkerState::Busy, ..s.workers[w] },
                _ => Worker { state: WorkerState::Exited, ..s.workers[w] },
            };
            lemma_tally_update(s.workers, busy, w, next);
            lemma_tally_update(s.workers, live, w, next);
            lemma_tally_update(s.workers, unjoined, w, next);
        },
        Event::Finish(w, _) => {
            let next = Worker { state: WorkerState::Idle, ..s.workers[w] };
            lemma_tally_update(s.workers, busy, w, next);
            lemma_tally_update(s.workers, live, w, next);
            lemma_tally_update(s.workers, unjoined, w, next);
        },
        Event::ShutdownStep => {},
        Event::Joined(w) => {
            let next = Worker { joined: true, ..s.workers[w] };
            lemma_tally_update(s.workers, busy, w, next);
            lemma_tally_update(s.workers, live, w, next);
            lemma_tally_update(s.workers, unjoined, w, next);
        },
    }
}

/// No work is left exactly when the pool has stopped.
pub proof fn lemma_no_work_left_iff_stopped<J>(s: PoolView<J>)
    requires
        s.inv(),
    ensures
        s.work_left() == 0 <==> s.phase == Phase::Stopped,
{
    if s.phase == Phase::Stopped {
        lemma_stopped_is_drained(s);
        lemma_tally_bounds(s.workers, |w: Worker| w.state != WorkerState::Exited);
        lemma_tally_bounds(s.workers, |w: Worker| !w.joined);
    }
}

/// The number of events that change the state is bounded: a run of such
/// events is as long as the work it uses up, where each accepted job
/// brings three units of work with it.
pub proof fn lemma_run_spends_work<J>(s: PoolView<J>, trace: Seq<Event<J>>)
    requires
        s.inv(),
        s.admits(trace),
        s.moves(trace),
    ensures
        s.run(trace).work_left() + trace.len() == s.work_left() + 3 * s.accepted_in(trace).len(),
    decreases trace.len(),
{
    if trace.len() > 0 {
        let event = trace.first();
        let t = s.step(event);
        lemma_step_keeps_inv(s, event);
        lemma_step_spends_work(s, event);
        lemma_run_spends_work(t, trace.drop_first());
        let one = seq![event];
        assert(one.first() == event);
        assert(t.accepted_in(one.drop_first()) =~= Seq::<J>::empty());
        assert(s.accepted_in(trace).len() == s.accepted_in(one).len() + t.accepted_in(
            trace.drop_first(),
        ).len());
    }
}

/// Until a pool has stopped something can always happen that brings it
/// closer to stopping: the owner can take a step of the shutdown, or the
/// worker it is asked to join can poll, finish its job or be joined.
pub proof fn lemma_never_stuck<J>(s: PoolView<J>) -> (event: Event<J>)
    requires
        s.inv(),
        s.phase != Phase::Stopped,
    ensures
        !(event is Submit),
        s.enabled(event),
        s.step(event) != s,
        s.step(event).work_left() < s.work_left(),
{
    lemma_first_unjoined(s.workers);
    let w = first_unjoined(s.workers);
    let event = if s.phase == Phase::Running || w == s.workers.len() {
        Event::ShutdownStep
    } else {
        match s.workers[w].state {
            WorkerState::Idle => Event::Poll(w),
            WorkerState::Busy => Event::Finish(w, JobOutcome::Completed),
            WorkerState::Exited => Event::Joined(w),
        }
    };
    if s.phase != Phase::Running && w < s.workers.len() {
        assert(s.step(event).workers[w] != s.workers[w]);
    }
    lemma_step_spends_work(s, event);
    let one = seq![event];
    assert(one.first() == event);
    assert(s.step(event).accepted_in(one.drop_first()) =~= Seq::<J>::empty());
    assert(s.accepted_in(one) =~= Seq::<J>::empty());
    event
}

/// A pool of `size` workers that is shut down without having been given a
/// job stops after exactly `2 * size + 2` events that change its state,
/// whatever their order, and cannot take more. Every worker has then
/// exited and has been joined.
pub proof fn lemma_idle_shutdown<J>(size: nat, trace: Seq<Event<J>>)
    requires
        1 <= size <= usize::MAX,
        PoolView::<J>::init(size).admits(trace),
        PoolView::<J>::init(size).moves(trace),
        PoolView::<J>::init(size).accepted_in(trace).len() == 0,
    ensures
        trace.len() <= 2 * size + 2,
        trace.len() == 2 * size + 2 <==> PoolView::<J>::init(size).run(trace).phase
            == Phase::Stopped,
        PoolView::<J>::init(size).run(trace).phase == Phase::Stopped ==> forall|i: int|
            0 <= i < size ==> (#[trigger] PoolView::<J>::init(size).run(trace).workers[i]).state
                == WorkerState::Exited && PoolView::<J>::init(size).run(trace).workers[i].joined,
{
    let s = PoolView::<J>::init(size);
    lemma_init_inv::<J>(size);
    lemma_tally_bounds(s.workers, |w: Worker| w.state == WorkerState::Busy);
    lemma_tally_bounds(s.workers, |w: Worker| w.state != WorkerState::Exited);
    lemma_tally_bounds(s.workers, |w: Worker| !w.joined);
    assert(s.work_left() == 2 * size + 2);
    lemma_run_keeps_inv(s, trace);
    lemma_run_spends_work(s, trace);
    lemma_no_work_left_iff_stopped(s.run(trace));
    lemma_run_keeps_size(s, trace);
    if s.run(trace).phase == Phase::Stopped {
        lemma_stopped_is_drained(s.run(trace));
    }
}

/// The number of workers is fixed when the pool is made, and the phase
/// never goes back.
pub proof fn lemma_run_keeps_size<J>(s: PoolView<J>, trace: Seq<Event<J>>)
    requires
        s.inv(),
        s.admits(trace),
    ensures
        s.run(trace).workers.len() == s.workers.len(),
        s.run(trace).phase.rank() >= s.phase.rank(),
    decreases trace.len(),
{
    if trace.len() > 0 {
        lemma_step_keeps_inv(s, trace.first());
        lemma_step_keeps_shape(s, trace.first());
        lemma_run_keeps_size(s.step(trace.first()), trace.drop_first());
    }
}

} // verus!
