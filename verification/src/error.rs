//! Errors that the pool and its queue report to their callers.

use vstd::prelude::*;

verus! {

/// Why a pool could not be built.
#[derive(Clone, Copy, Debug, PartialEq, Eq, Structural)]
pub enum ConstructionError {
    /// The requested number of workers was zero.
    ZeroWorkers,
}

/// A job was offered to a pool whose shutdown has begun.
#[derive(Clone, Copy, Debug, PartialEq, Eq, Structural)]
pub struct PoolClosedError;

/// A job was offered to a queue that has been closed.
#[derive(Clone, Copy, Debug, PartialEq, Eq, Structural)]
pub struct ClosedQueue;

} // verus!
