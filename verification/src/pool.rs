//! The worker pool: a fixed arena of workers around one job queue.
//!
//! The pool decides; its caller acts. Worker threads, the lock that guards
//! the pool and the sleeping of idle workers belong to the caller, which
//! reports every event to the pool and does what the pool answers.

use crate::counting::lemma_first_unjoined_is;
use crate::error::{ConstructionError, PoolClosedError};
use crate::laws::{lemma_init_inv, lemma_step_keeps_inv};
use crate::model::{first_unjoined, Event, PoolView};
use crate::queue::{JobQueue, Received};
use crate::worker::{JobOutcome, Phase, ShutdownAction, Worker, WorkerAction, WorkerState};
use vstd::prelude::*;

verus! {

/// A pool of a fixed number of workers that take jobs of type `J` from a
/// shared first-in, first-out queue.
pub struct WorkerPool<J> {
    workers: Vec<Worker>,
    queue: JobQueue<J>,
    phase: Phase,
    finished: Ghost<nat>,
    failed: Ghost<nat>,
}

impl<J> View for WorkerPool<J> {
    type V = PoolView<J>;

    closed spec fn view(&self) -> PoolView<J> {
        PoolView {
            phase: self.phase,
            workers: self.workers@,
            queue: self.queue@,
            finished: self.finished@,
            failed: self.failed@,
        }
    }
}

impl<J> WorkerPool<J> {
    /// Whether the pool is in a state that a pool can reach.
    pub open spec fn wf(&self) -> bool {
        self@.inv()
    }

    /// Makes a running pool of `size` idle workers and an empty queue.
    /// A pool of no workers is refused.
    pub fn new(size: usize) -> (result: Result<Self, ConstructionError>)
        ensures
            size == 0 ==> result == Err::<Self, ConstructionError>(ConstructionError::ZeroWorkers),
            size > 0 ==> result is Ok && result->Ok_0.wf() && result->Ok_0@ == PoolView::<
                J,
            >::init(size as nat),
    {
        if size == 0 {
            return Err(ConstructionError::ZeroWorkers);
        }
        let mut workers: Vec<Worker> = Vec::new();
        let mut id: usize = 0;
        while id < size
            invariant
                id <= size,
                workers@.len() == id,
                forall|i: int|
                    0 <= i < id ==> workers@[i] == (Worker {
                        id: i as usize,
                        state: WorkerState::Idle,
                        joined: false,
                    }),
            decreases size - id,
        {
            workers.push(Worker { id, state: WorkerState::Idle, joined: false });
            id = id + 1;
        }
        let pool = WorkerPool {
            workers,
            queue: JobQueue::new(),
            phase: Phase::Running,
            finished: Ghost(0),
            failed: Ghost(0),
        };
        proof {
            assert(pool@.workers =~= PoolView::<J>::init(size as nat).workers);
            lemma_init_inv::<J>(size as nat);
        }
        Ok(pool)
    }

    /// Queues `job` for the workers, or refuses it once shutdown has begun.
    /// A refused job is dropped without being run.
    pub fn submit(&mut self, job: J) -> (result: Result<(), PoolClosedError>)
        requires
            old(self).wf(),
        ensures
            final(self).wf(),
            final(self)@ == old(self)@.submit(job),
            result is Ok <==> old(self)@.phase == Phase::Running,
            result is Err ==> final(self)@ == old(self)@,
    {
        proof {
            lemma_step_keeps_inv(self@, Event::Submit(job));
        }
        match self.queue.send(job) {
            Ok(()) => Ok(()),
            Err(_) => Err(PoolClosedError),
        }
    }

    /// Tells the idle worker `worker` what to do next: run the oldest
    /// waiting job, wait, or leave. A worker that gets a job is busy until
    /// it reports the job's end; a worker told to leave has exited.
    pub fn poll(&mut self, worker: usize) -> (action: WorkerAction<J>)
        requires
            old(self).wf(),
            old(self)@.may_poll(worker as int),
        ensures
            final(self).wf(),
            final(self)@ == old(self)@.poll(worker as int),
            action == old(self)@.directive(),
    {
        proof {
            lemma_step_keeps_inv(self@, Event::Poll(worker as int));
        }
        match self.queue.receive() {
            Received::Job(job) => {
                self.workers.set(
                    worker,
                    Worker { id: worker, state: WorkerState::Busy, joined: false },
                );
                WorkerAction::Run(job)
            },
            Received::Empty => WorkerAction::Wait,
            Received::Closed => {
                self.workers.set(
                    worker,
                    Worker { id: worker, state: WorkerState::Exited, joined: false },
                );
                WorkerAction::Exit
            },
        }
    }

    /// Records that the busy worker `worker` has ended its job. Whether the
    /// job completed or failed, the worker is idle again.
    pub fn finish(&mut self, worker: usize, outcome: JobOutcome)
        requires
            old(self).wf(),
            old(self)@.may_finish(worker as int),
        ensures
            final(self).wf(),
            final(self)@ == old(self)@.finish(worker as int, outcome),
    {
        proof {
            lemma_step_keeps_inv(self@, Event::Finish(worker as int, outcome));
            self.finished@ = self.finished@ + 1;
            if outcome == JobOutcome::Failed {
                self.failed@ = self.failed@ + 1;
            }
        }
        self.workers.set(worker, Worker { id: worker, state: WorkerState::Idle, joined: false });
    }

    /// Takes the next step of the shutdown and tells the owner what to do.
    /// The first step closes the intake, so no worker is offered for
    /// joining before that. Then each worker that has not been joined is
    /// offered in turn, until the pool has stopped. On a stopped pool
    /// nothing changes.
    pub fn shutdown_step(&mut self) -> (action: ShutdownAction)
        requires
            old(self).wf(),
        ensures
            final(self).wf(),
            final(self)@ == old(self)@.shutdown_step(),
            action == old(self)@.shutdown_action(),
    {
        proof {
            lemma_step_keeps_inv(self@, Event::ShutdownStep);
        }
        match self.phase {
            Phase::Running => {
                self.queue.close();
                self.phase = Phase::ShuttingDown;
                ShutdownAction::WakeWorkers
            },
            Phase::ShuttingDown => {
                let next = self.next_to_join();
                if next < self.workers.len() {
                    ShutdownAction::Join(next)
                } else {
                    self.phase = Phase::Stopped;
                    ShutdownAction::Done
                }
            },
            Phase::Stopped => ShutdownAction::Done,
        }
    }

    /// Records that the owner has joined the thread of the worker `worker`,
    /// which has exited and has not been joined before.
    pub fn mark_joined(&mut self, worker: usize)
        requires
            old(self).wf(),
            old(self)@.may_join(worker as int),
        ensures
            final(self).wf(),
            final(self)@ == old(self)@.mark_joined(worker as int),
    {
        proof {
            lemma_step_keeps_inv(self@, Event::Joined(worker as int));
        }
        self.workers.set(worker, Worker { id: worker, state: WorkerState::Exited, joined: true });
    }

    /// The number of workers, fixed when the pool was made.
    pub fn size(&self) -> (size: usize)
        requires
            self.wf(),
        ensures
            size == self@.workers.len(),
            size >= 1,
    {
        self.workers.len()
    }

    /// The phase of the pool's life cycle.
    pub fn phase(&self) -> (phase: Phase)
        ensures
            phase == self@.phase,
    {
        self.phase
    }

    /// The number of jobs that wait for a worker.
    pub fn pending(&self) -> (pending: usize)
        ensures
            pending == self@.queue.pending.len(),
    {
        self.queue.len()
    }

    /// The record of the worker `worker`, if there is such a worker.
    pub fn worker(&self, worker: usize) -> (record: Option<Worker>)
        ensures
            record == if self@.has_worker(worker as int) {
                Some(self@.workers[worker as int])
            } else {
                None
            },
    {
        if worker < self.workers.len() {
            Some(self.workers[worker])
        } else {
            None
        }
    }

    /// The index of the first worker that has not been joined, or the
    /// number of workers if all have been.
    fn next_to_join(&self) -> (next: usize)
        ensures
            next == first_unjoined(self@.workers),
    {
        let mut i: usize = 0;
        while i < self.workers.len() && self.workers[i].joined
            invariant
                i <= self.workers.len(),
                forall|j: int| 0 <= j < i ==> (#[trigger] self.workers@[j]).joined,
            decreases self.workers.len() - i,
        {
            i = i + 1;
        }
        proof {
            lemma_first_unjoined_is(self.workers@, i as int);
        }
        i
    }
}

} // verus!
