use worker_pool::error::{ConstructionError, PoolClosedError};
use worker_pool::pool::WorkerPool;
use worker_pool::worker::{JobOutcome, Phase, ShutdownAction, Worker, WorkerAction, WorkerState};

fn pool_of(size: usize) -> WorkerPool<u32> {
    match WorkerPool::new(size) {
        Ok(pool) => pool,
        Err(error) => panic!("no pool of {} workers: {:?}", size, error),
    }
}

fn run_of(action: WorkerAction<u32>) -> u32 {
    match action {
        WorkerAction::Run(job) => job,
        other => panic!("expected a job, got {:?}", other),
    }
}

/// Plays the owner's side of the shutdown with workers that leave as soon
/// as they are asked to, and returns the actions in their order.
fn shut_down(pool: &mut WorkerPool<u32>) -> Vec<ShutdownAction> {
    let mut actions = Vec::new();
    loop {
        let action = pool.shutdown_step();
        actions.push(action);
        match action {
            ShutdownAction::WakeWorkers => {}
            ShutdownAction::Join(worker) => {
                loop {
                    match pool.worker(worker).map(|record| record.state) {
                        Some(WorkerState::Idle) => match pool.poll(worker) {
                            WorkerAction::Run(_) => pool.finish(worker, JobOutcome::Completed),
                            WorkerAction::Wait => panic!("a worker waits on a closed pool"),
                            WorkerAction::Exit => {}
                        },
                        Some(WorkerState::Busy) => pool.finish(worker, JobOutcome::Completed),
                        Some(WorkerState::Exited) => break,
                        None => panic!("asked to join a worker that does not exist"),
                    }
                }
                pool.mark_joined(worker);
            }
            ShutdownAction::Done => return actions,
        }
    }
}

#[test]
fn new_pool_is_running_with_idle_workers() {
    let pool = pool_of(4);
    assert_eq!(pool.size(), 4);
    assert_eq!(pool.phase(), Phase::Running);
    assert_eq!(pool.pending(), 0);
    for id in 0..4 {
        assert_eq!(
            pool.worker(id),
            Some(Worker { id, state: WorkerState::Idle, joined: false })
        );
    }
    assert_eq!(pool.worker(4), None);
}

#[test]
fn zero_workers_is_a_construction_error() {
    let result: Result<WorkerPool<u32>, ConstructionError> = WorkerPool::new(0);
    assert!(matches!(result, Err(ConstructionError::ZeroWorkers)));
}

#[test]
fn one_worker_is_the_smallest_pool() {
    let pool = pool_of(1);
    assert_eq!(pool.size(), 1);
    assert_eq!(pool.worker(1), None);
}

#[test]
fn idle_pool_shuts_down_in_a_bounded_number_of_steps() {
    for size in 1..=5usize {
        let mut pool = pool_of(size);
        let actions = shut_down(&mut pool);
        let mut expected = vec![ShutdownAction::WakeWorkers];
        for id in 0..size {
            expected.push(ShutdownAction::Join(id));
        }
        expected.push(ShutdownAction::Done);
        assert_eq!(actions, expected);
        assert_eq!(pool.phase(), Phase::Stopped);
        for id in 0..size {
            assert_eq!(
                pool.worker(id),
                Some(Worker { id, state: WorkerState::Exited, joined: true })
            );
        }
    }
}

#[test]
fn idle_worker_waits_while_the_pool_runs() {
    let mut pool = pool_of(2);
    assert!(matches!(pool.poll(0), WorkerAction::Wait));
    assert!(matches!(pool.poll(1), WorkerAction::Wait));
    assert_eq!(pool.worker(0).map(|w| w.state), Some(WorkerState::Idle));
    assert_eq!(pool.phase(), Phase::Running);
}

#[test]
fn submit_only_queues_the_job() {
    let mut pool = pool_of(2);
    assert_eq!(pool.submit(7), Ok(()));
    assert_eq!(pool.pending(), 1);
    assert_eq!(pool.worker(0).map(|w| w.state), Some(WorkerState::Idle));
    assert_eq!(pool.worker(1).map(|w| w.state), Some(WorkerState::Idle));
}

#[test]
fn every_submitted_job_runs_once_before_the_pool_stops() {
    let mut pool = pool_of(3);
    let jobs: Vec<u32> = (100..120).collect();
    for job in &jobs {
        assert_eq!(pool.submit(*job), Ok(()));
    }
    assert_eq!(pool.pending(), 20);
    assert_eq!(pool.shutdown_step(), ShutdownAction::WakeWorkers);
    assert_eq!(pool.shutdown_step(), ShutdownAction::Join(0));

    let mut ran: Vec<u32> = Vec::new();
    let mut turn = 0usize;
    while pool.pending() > 0 {
        let worker = turn % 3;
        ran.push(run_of(pool.poll(worker)));
        assert_eq!(pool.worker(worker).map(|w| w.state), Some(WorkerState::Busy));
        // The owner is kept waiting for as long as jobs are left.
        assert_eq!(pool.shutdown_step(), ShutdownAction::Join(0));
        assert_eq!(pool.phase(), Phase::ShuttingDown);
        pool.finish(worker, JobOutcome::Completed);
        turn += 1;
    }
    assert_eq!(ran, jobs);

    let actions = shut_down(&mut pool);
    assert_eq!(
        actions,
        vec![
            ShutdownAction::Join(0),
            ShutdownAction::Join(1),
            ShutdownAction::Join(2),
            ShutdownAction::Done
        ]
    );
    assert_eq!(pool.phase(), Phase::Stopped);
    assert_eq!(pool.pending(), 0);
}

#[test]
fn queued_jobs_are_drained_after_shutdown_begins() {
    let mut pool = pool_of(1);
    assert_eq!(pool.submit(1), Ok(()));
    assert_eq!(pool.submit(2), Ok(()));
    assert_eq!(pool.shutdown_step(), ShutdownAction::WakeWorkers);
    assert_eq!(run_of(pool.poll(0)), 1);
    pool.finish(0, JobOutcome::Completed);
    assert_eq!(run_of(pool.poll(0)), 2);
    pool.finish(0, JobOutcome::Completed);
    assert!(matches!(pool.poll(0), WorkerAction::Exit));
    assert_eq!(pool.worker(0).map(|w| w.state), Some(WorkerState::Exited));
}

#[test]
fn single_worker_runs_jobs_in_submission_order() {
    let mut pool = pool_of(1);
    let mut ran: Vec<u32> = Vec::new();
    assert_eq!(pool.submit(5), Ok(()));
    assert_eq!(pool.submit(3), Ok(()));
    ran.push(run_of(pool.poll(0)));
    assert_eq!(pool.submit(9), Ok(()));
    pool.finish(0, JobOutcome::Completed);
    ran.push(run_of(pool.poll(0)));
    pool.finish(0, JobOutcome::Completed);
    assert_eq!(pool.submit(1), Ok(()));
    ran.push(run_of(pool.poll(0)));
    pool.finish(0, JobOutcome::Completed);
    ran.push(run_of(pool.poll(0)));
    pool.finish(0, JobOutcome::Completed);
    assert_eq!(ran, vec![5, 3, 9, 1]);
    assert!(matches!(pool.poll(0), WorkerAction::Wait));
}

#[test]
fn submit_after_shutdown_began_is_refused() {
    let mut pool = pool_of(2);
    assert_eq!(pool.submit(1), Ok(()));
    assert_eq!(pool.shutdown_step(), ShutdownAction::WakeWorkers);
    assert_eq!(pool.phase(), Phase::ShuttingDown);
    assert_eq!(pool.submit(2), Err(PoolClosedError));
    assert_eq!(pool.pending(), 1);
    assert_eq!(run_of(pool.poll(0)), 1);
    pool.finish(0, JobOutcome::Completed);
    assert!(matches!(pool.poll(0), WorkerAction::Exit));
    assert!(matches!(pool.poll(1), WorkerAction::Exit));
    shut_down(&mut pool);
    assert_eq!(pool.phase(), Phase::Stopped);
    assert_eq!(pool.submit(3), Err(PoolClosedError));
    assert_eq!(pool.pending(), 0);
}

#[test]
fn failed_job_leaves_its_worker_in_service() {
    let mut pool = pool_of(1);
    assert_eq!(pool.submit(1), Ok(()));
    assert_eq!(run_of(pool.poll(0)), 1);
    pool.finish(0, JobOutcome::Failed);
    assert_eq!(
        pool.worker(0),
        Some(Worker { id: 0, state: WorkerState::Idle, joined: false })
    );
    assert_eq!(pool.phase(), Phase::Running);
    assert_eq!(pool.submit(2), Ok(()));
    assert_eq!(run_of(pool.poll(0)), 2);
    pool.finish(0, JobOutcome::Completed);
    assert!(matches!(pool.poll(0), WorkerAction::Wait));
}

#[test]
fn all_workers_can_be_busy_at_once() {
    let mut pool = pool_of(3);
    for job in 0..5u32 {
        assert_eq!(pool.submit(job), Ok(()));
    }
    assert_eq!(run_of(pool.poll(0)), 0);
    assert_eq!(run_of(pool.poll(1)), 1);
    assert_eq!(run_of(pool.poll(2)), 2);
    for id in 0..3 {
        assert_eq!(pool.worker(id).map(|w| w.state), Some(WorkerState::Busy));
    }
    assert_eq!(pool.pending(), 2);
    // Whoever finishes first gets the next job.
    pool.finish(2, JobOutcome::Completed);
    assert_eq!(run_of(pool.poll(2)), 3);
    pool.finish(0, JobOutcome::Completed);
    assert_eq!(run_of(pool.poll(0)), 4);
    assert_eq!(pool.pending(), 0);
}

#[test]
fn no_worker_is_offered_for_joining_before_the_intake_closes() {
    let mut pool = pool_of(2);
    assert_eq!(pool.phase(), Phase::Running);
    assert_eq!(pool.shutdown_step(), ShutdownAction::WakeWorkers);
    assert_eq!(pool.phase(), Phase::ShuttingDown);
    assert_eq!(pool.submit(1), Err(PoolClosedError));
    assert_eq!(pool.shutdown_step(), ShutdownAction::Join(0));
    // Asking again offers the same worker and changes nothing.
    assert_eq!(pool.shutdown_step(), ShutdownAction::Join(0));
    assert_eq!(pool.worker(0).map(|w| w.joined), Some(false));
}

#[test]
fn workers_may_be_joined_out_of_turn() {
    let mut pool = pool_of(3);
    assert_eq!(pool.shutdown_step(), ShutdownAction::WakeWorkers);
    assert!(matches!(pool.poll(1), WorkerAction::Exit));
    pool.mark_joined(1);
    assert_eq!(
        pool.worker(1),
        Some(Worker { id: 1, state: WorkerState::Exited, joined: true })
    );
    assert_eq!(pool.shutdown_step(), ShutdownAction::Join(0));
    assert!(matches!(pool.poll(0), WorkerAction::Exit));
    pool.mark_joined(0);
    assert_eq!(pool.shutdown_step(), ShutdownAction::Join(2));
    assert!(matches!(pool.poll(2), WorkerAction::Exit));
    pool.mark_joined(2);
    assert_eq!(pool.phase(), Phase::ShuttingDown);
    assert_eq!(pool.shutdown_step(), ShutdownAction::Done);
    assert_eq!(pool.phase(), Phase::Stopped);
}

#[test]
fn shutdown_of_a_stopped_pool_changes_nothing() {
    let mut pool = pool_of(2);
    shut_down(&mut pool);
    assert_eq!(pool.phase(), Phase::Stopped);
    for _ in 0..3 {
        assert_eq!(pool.shutdown_step(), ShutdownAction::Done);
        assert_eq!(pool.phase(), Phase::Stopped);
        assert_eq!(pool.worker(0).map(|w| w.joined), Some(true));
        assert_eq!(pool.worker(1).map(|w| w.joined), Some(true));
    }
}
