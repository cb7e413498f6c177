//! The pool as a state machine over mathematical values.
//!
//! Every executable operation of the pool is specified as one transition of
//! this machine. The machine also carries a ledger that no running program
//! keeps: every job ever handed to a worker, and how many have finished.

use crate::queue::{QueueView, Received};
use crate::worker::{JobOutcome, Phase, ShutdownAction, Worker, WorkerAction, WorkerState};
use vstd::prelude::*;

verus! {

/// The number of elements of `s` that satisfy `p`.
pub open spec fn tally<T>(s: Seq<T>, p: spec_fn(T) -> bool) -> nat
    decreases s.len(),
{
    if s.len() == 0 {
        0
    } else {
        tally(s.drop_last(), p) + if p(s.last()) {
            1nat
        } else {
            0nat
        }
    }
}

/// The number of workers that are running a job.
pub open spec fn busy_count(workers: Seq<Worker>) -> nat {
    tally(workers, |w: Worker| w.state == WorkerState::Busy)
}

/// The number of workers that have not been told to leave.
pub open spec fn live_count(workers: Seq<Worker>) -> nat {
    tally(workers, |w: Worker| w.state != WorkerState::Exited)
}

/// The number of workers whose thread has not been joined.
pub open spec fn unjoined_count(workers: Seq<Worker>) -> nat {
    tally(workers, |w: Worker| !w.joined)
}

/// The index of the first worker that has not been joined, or the number of
/// workers if all have been.
pub open spec fn first_unjoined(workers: Seq<Worker>) -> int
    decreases workers.len(),
{
    if workers.len() == 0 {
        0
    } else if !workers.first().joined {
        0
    } else {
        1 + first_unjoined(workers.drop_first())
    }
}

/// The mathematical state of a pool.
pub struct PoolView<J> {
    /// The phase of the life cycle.
    pub phase: Phase,
    /// The arena of workers, indexed by worker id.
    pub workers: Seq<Worker>,
    /// The job queue, with its record of the jobs handed out.
    pub queue: QueueView<J>,
    /// How many jobs have been reported as finished.
    pub finished: nat,
    /// How many of the finished jobs failed.
    pub failed: nat,
}

/// Something that happens to a pool.
pub enum Event<J> {
    /// A caller submits a job.
    Submit(J),
    /// The worker with this index asks for its next action.
    Poll(int),
    /// The worker with this index reports how its job ended.
    Finish(int, JobOutcome),
    /// The owner asks for the next step of the shutdown.
    ShutdownStep,
    /// The owner reports that it has joined the thread of this worker.
    Joined(int),
}

impl<J> PoolView<J> {
    /// A pool of `size` workers that has seen no job.
    pub open spec fn init(size: nat) -> Self {
        PoolView {
            phase: Phase::Running,
            workers: Seq::new(
                size,
                |i: int| Worker { id: i as usize, state: WorkerState::Idle, joined: false },
            ),
            queue: QueueView::fresh(),
            finished: 0,
            failed: 0,
        }
    }

    /// Whether `w` is the index of a worker.
    pub open spec fn has_worker(self, w: int) -> bool {
        0 <= w < self.workers.len()
    }

    /// The arena after the worker `w` moved to `state`.
    pub open spec fn with_state(self, w: int, state: WorkerState) -> Seq<Worker> {
        self.workers.update(w, Worker { state, ..self.workers[w] })
    }

    /// The state after `job` was submitted: a running pool queues it, any
    /// other pool is unchanged.
    pub open spec fn submit(self, job: J) -> Self {
        if self.phase == Phase::Running {
            PoolView { queue: self.queue.send(job), ..self }
        } else {
            self
        }
    }

    /// Whether the worker `w` may ask for its next action.
    pub open spec fn may_poll(self, w: int) -> bool {
        self.has_worker(w) && self.workers[w].state == WorkerState::Idle
    }

    /// What any worker that asks now is told to do: run the oldest waiting
    /// job; with none waiting, wait while the intake is open and leave once
    /// it is closed.
    pub open spec fn directive(self) -> WorkerAction<J> {
        match self.queue.offer() {
            Received::Job(job) => WorkerAction::Run(job),
            Received::Empty => WorkerAction::Wait,
            Received::Closed => WorkerAction::Exit,
        }
    }

    /// The state after the worker `w` asked for its next action.
    pub open spec fn poll(self, w: int) -> Self {
        match self.queue.offer() {
            Received::Job(_) => PoolView {
                workers: self.with_state(w, WorkerState::Busy),
                queue: self.queue.receive(),
                ..self
            },
            Received::Empty => self,
            Received::Closed => PoolView {
                workers: self.with_state(w, WorkerState::Exited),
                ..self
            },
        }
    }

    /// Whether the worker `w` may report the end of a job.
    pub open spec fn may_finish(self, w: int) -> bool {
        self.has_worker(w) && self.workers[w].state == WorkerState::Busy
    }

    /// The state after the worker `w` reported the end of its job: whatever
    /// the outcome, the worker is back in its loop.
    pub open spec fn finish(self, w: int, outcome: JobOutcome) -> Self {
        PoolView {
            workers: self.with_state(w, WorkerState::Idle),
            finished: self.finished + 1,
            failed: if outcome == JobOutcome::Failed {
                self.failed + 1
            } else {
                self.failed
            },
            ..self
        }
    }

    /// What the owner is told to do at the next step of the shutdown.
    pub open spec fn shutdown_action(self) -> ShutdownAction {
        match self.phase {
            Phase::Running => ShutdownAction::WakeWorkers,
            Phase::ShuttingDown => if first_unjoined(self.workers) < self.workers.len() {
                ShutdownAction::Join(first_unjoined(self.workers) as usize)
            } else {
                ShutdownAction::Done
            },
            Phase::Stopped => ShutdownAction::Done,
        }
    }

    /// The state after the owner asked for the next step of the shutdown.
    /// The first step closes the intake. While a worker is left to join the
    /// state stays as it is; once none is left the pool has stopped.
    pub open spec fn shutdown_step(self) -> Self {
        match self.phase {
            Phase::Running => PoolView {
                phase: Phase::ShuttingDown,
                queue: self.queue.close(),
                ..self
            },
            Phase::ShuttingDown => if first_unjoined(self.workers) < self.workers.len() {
                self
            } else {
                PoolView { phase: Phase::Stopped, ..self }
            },
            Phase::Stopped => self,
        }
    }

    /// Whether the owner may report the worker `w` as joined: its thread
    /// has been told to leave, and it has not been joined before.
    pub open spec fn may_join(self, w: int) -> bool {
        &&& self.has_worker(w)
        &&& self.workers[w].state == WorkerState::Exited
        &&& !self.workers[w].joined
    }

    /// The state after the owner joined the thread of the worker `w`.
    pub open spec fn mark_joined(self, w: int) -> Self {
        PoolView {
            workers: self.workers.update(w, Worker { joined: true, ..self.workers[w] }),
            ..self
        }
    }

    /// Whether `event` may happen in this state.
    pub open spec fn enabled(self, event: Event<J>) -> bool {
        match event {
            Event::Submit(_) => true,
            Event::Poll(w) => self.may_poll(w),
            Event::Finish(w, _) => self.may_finish(w),
            Event::ShutdownStep => true,
            Event::Joined(w) => self.may_join(w),
        }
    }

    /// The state after `event`.
    pub open spec fn step(self, event: Event<J>) -> Self {
        match event {
            Event::Submit(job) => self.submit(job),
            Event::Poll(w) => self.poll(w),
            Event::Finish(w, outcome) => self.finish(w, outcome),
            Event::ShutdownStep => self.shutdown_step(),
            Event::Joined(w) => self.mark_joined(w),
        }
    }

    /// Whether each event of `trace` may happen in the state that the events
    /// before it lead to.
    pub open spec fn admits(self, trace: Seq<Event<J>>) -> bool
        decreases trace.len(),
    {
        trace.len() > 0 ==> self.enabled(trace.first()) && self.step(trace.first()).admits(
            trace.drop_first(),
        )
    }

    /// The state after the events of `trace`, in their order.
    pub open spec fn run(self, trace: Seq<Event<J>>) -> Self
        decreases trace.len(),
    {
        if trace.len() == 0 {
            self
        } else {
            self.step(trace.first()).run(trace.drop_first())
        }
    }

    /// Whether each event of `trace` changes the state that the events
    /// before it lead to.
    pub open spec fn moves(self, trace: Seq<Event<J>>) -> bool
        decreases trace.len(),
    {
        trace.len() > 0 ==> self.step(trace.first()) != self && self.step(trace.first()).moves(
            trace.drop_first(),
        )
    }

    /// The jobs that the events of `trace` submit while the pool is running,
    /// in their order: the jobs that the pool accepts.
    pub open spec fn accepted_in(self, trace: Seq<Event<J>>) -> Seq<J>
        decreases trace.len(),
    {
        if trace.len() == 0 {
            Seq::empty()
        } else {
            let rest = self.step(trace.first()).accepted_in(trace.drop_first());
            match trace.first() {
                Event::Submit(job) if self.phase == Phase::Running => seq![job] + rest,
                _ => rest,
            }
        }
    }

    /// What holds of every state that a pool can reach.
    pub open spec fn inv(self) -> bool {
        &&& 1 <= self.workers.len() <= usize::MAX
        &&& forall|i: int| 0 <= i < self.workers.len() ==> (#[trigger] self.workers[i]).id == i
        &&& self.queue.closed <==> self.phase != Phase::Running
        &&& forall|i: int|
            0 <= i < self.workers.len() && (#[trigger] self.workers[i]).state
                == WorkerState::Exited ==> self.queue.closed && self.queue.pending.len() == 0
        &&& forall|i: int|
            0 <= i < self.workers.len() && (#[trigger] self.workers[i]).joined
                ==> self.workers[i].state == WorkerState::Exited
        &&& self.phase == Phase::Stopped ==> forall|i: int|
            0 <= i < self.workers.len() ==> (#[trigger] self.workers[i]).joined
        &&& self.queue.delivered.len() == self.finished + busy_count(self.workers)
        &&& self.failed <= self.finished
    }

    /// An upper bound on the number of state-changing events that can still
    /// happen once no more jobs are accepted.
    pub open spec fn work_left(self) -> nat {
        2 * self.queue.pending.len() + busy_count(self.workers) + live_count(self.workers)
            + unjoined_count(self.workers) + (2 - self.phase.rank()) as nat
    }
}

} // verus!
