//! The sequential core of a fixed-size worker pool, and of the small web
//! server that runs on it.
//!
//! A pool owns a fixed arena of workers and one first-in, first-out queue
//! of jobs. Callers submit jobs; idle workers take them in the order of
//! submission; shutdown closes the intake, lets the workers drain the
//! queue and leave, and ends when every worker has been joined.
//!
//! Nothing here starts a thread or blocks. The pool is a state machine:
//! its caller reports what happened (a job was submitted, a worker asks
//! for work, a job ended, a thread was joined) and the pool answers with
//! what to do next. The caller guards the pool with a lock and does the
//! waiting.
//!
//! - [`queue`]: the closeable job queue.
//! - [`worker`]: worker records, phases, and the answers the pool gives.
//! - [`pool`]: the pool itself.
//! - [`model`]: the pool as a mathematical state machine, the
//!   specification of every operation in [`pool`].
//! - [`laws`]: what holds of every run of that machine.
//! - [`counting`]: lemmas about counting workers.
//! - [`http`]: routing of request lines and the text of responses.
//! - [`error`]: the errors.

pub mod counting;
pub mod error;
pub mod http;
pub mod laws;
pub mod model;
pub mod pool;
pub mod queue;
pub mod worker;
