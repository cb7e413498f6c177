//! Worker records and the small vocabularies of the pool's protocol.

use vstd::prelude::*;

verus! {

/// Where a worker stands in its loop.
#[derive(Clone, Copy, Debug, PartialEq, Eq, Structural)]
pub enum WorkerState {
    /// In its receive loop: waiting for a job, or about to ask for one.
    Idle,
    /// Running a job that it has taken from the queue.
    Busy,
    /// Told that work has ended; its thread is finishing or has finished.
    Exited,
}

/// One entry of the pool's arena of workers.
#[derive(Clone, Copy, Debug, PartialEq, Eq, Structural)]
pub struct Worker {
    /// The worker's index in the arena.
    pub id: usize,
    /// Where the worker stands in its loop.
    pub state: WorkerState,
    /// Whether the pool's owner has joined the worker's thread.
    pub joined: bool,
}

/// How a job ended.
#[derive(Clone, Copy, Debug, PartialEq, Eq, Structural)]
pub enum JobOutcome {
    /// The job ran to its end.
    Completed,
    /// The job raised a failure, which was caught at the worker's loop.
    Failed,
}

/// The life cycle of a pool. It only ever moves forward.
#[derive(Clone, Copy, Debug, PartialEq, Eq, Structural)]
pub enum Phase {
    /// Accepting jobs; every worker is in its loop.
    Running,
    /// The intake is closed; workers drain the queue and leave.
    ShuttingDown,
    /// Every worker has been joined.
    Stopped,
}

/// What a worker has to do next.
#[derive(Debug)]
pub enum WorkerAction<J> {
    /// Run this job, then report how it ended.
    Run(J),
    /// Sleep until a job is submitted or the pool shuts down, then ask again.
    Wait,
    /// Leave the loop and let the thread end.
    Exit,
}

/// What the pool's owner has to do next to shut the pool down.
#[derive(Clone, Copy, Debug, PartialEq, Eq, Structural)]
pub enum ShutdownAction {
    /// The intake has just been closed: wake every sleeping worker.
    WakeWorkers,
    /// Join the thread of this worker, then report it as joined.
    Join(usize),
    /// Nothing is left to do: the pool has stopped.
    Done,
}

impl Phase {
    /// The position of a phase in the life cycle.
    pub open spec fn rank(self) -> nat {
        match self {
            Phase::Running => 0,
            Phase::ShuttingDown => 1,
            Phase::Stopped => 2,
        }
    }
}

} // verus!
