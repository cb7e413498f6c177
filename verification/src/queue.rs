//! The job queue: a closeable first-in, first-out conduit of jobs.
//!
//! The queue itself is sequential. A caller that shares it between threads
//! guards it with a lock, and lets a receiver that is told to wait sleep
//! until the next `send` or `close`.

use crate::error::ClosedQueue;
use std::collections::VecDeque;
use vstd::prelude::*;

verus! {

/// What a receiver learns from one attempt to take a job.
#[derive(Debug)]
pub enum Received<J> {
    /// The oldest waiting job, now owned by the receiver.
    Job(J),
    /// Nothing is waiting, but the queue is open: the receiver has to wait.
    Empty,
    /// Nothing is waiting and nothing will come: the end of work.
    Closed,
}

/// The mathematical state of a queue: what waits, what has been handed out,
/// and whether the intake is closed.
pub struct QueueView<J> {
    /// The jobs that wait, oldest first.
    pub pending: Seq<J>,
    /// The jobs that have been handed to receivers, in the order of handing out.
    pub delivered: Seq<J>,
    /// Whether the intake has been closed.
    pub closed: bool,
}

impl<J> QueueView<J> {
    /// A queue that is open and has seen no job.
    pub open spec fn fresh() -> Self {
        QueueView { pending: Seq::empty(), delivered: Seq::empty(), closed: false }
    }

    /// Every job the queue has ever accepted, in the order of acceptance.
    pub open spec fn accepted(self) -> Seq<J> {
        self.delivered + self.pending
    }

    /// The state after `job` was offered: it joins the end of the line
    /// unless the intake is closed.
    pub open spec fn send(self, job: J) -> Self {
        if self.closed {
            self
        } else {
            QueueView { pending: self.pending.push(job), ..self }
        }
    }

    /// The state after one attempt to take a job: the oldest waiting job,
    /// if there is one, moves to the delivered jobs.
    pub open spec fn receive(self) -> Self {
        if self.pending.len() > 0 {
            QueueView {
                pending: self.pending.drop_first(),
                delivered: self.delivered.push(self.pending.first()),
                ..self
            }
        } else {
            self
        }
    }

    /// What one attempt to take a job yields.
    pub open spec fn offer(self) -> Received<J> {
        if self.pending.len() > 0 {
            Received::Job(self.pending.first())
        } else if self.closed {
            Received::Closed
        } else {
            Received::Empty
        }
    }

    /// The state after the intake was closed. What waits stays.
    pub open spec fn close(self) -> Self {
        QueueView { closed: true, ..self }
    }
}

/// A first-in, first-out queue of jobs with an intake that can be closed.
pub struct JobQueue<J> {
    items: VecDeque<J>,
    closed: bool,
    delivered: Ghost<Seq<J>>,
}

impl<J> View for JobQueue<J> {
    type V = QueueView<J>;

    closed spec fn view(&self) -> QueueView<J> {
        QueueView { pending: self.items@, delivered: self.delivered@, closed: self.closed }
    }
}

impl<J> JobQueue<J> {
    /// Makes an open, empty queue.
    pub fn new() -> (queue: Self)
        ensures
            queue@ == QueueView::<J>::fresh(),
    {
        JobQueue { items: VecDeque::new(), closed: false, delivered: Ghost(Seq::empty()) }
    }

    /// Appends `job` to the queue, or refuses it if the queue is closed.
    pub fn send(&mut self, job: J) -> (result: Result<(), ClosedQueue>)
        ensures
            final(self)@ == old(self)@.send(job),
            result is Err <==> old(self)@.closed,
    {
        if self.closed {
            Err(ClosedQueue)
        } else {
            self.items.push_back(job);
            Ok(())
        }
    }

    /// Takes the oldest waiting job. With nothing waiting, says whether more
    /// may come (`Empty`) or not (`Closed`). Waiting jobs are handed out
    /// whether or not the queue is closed.
    pub fn receive(&mut self) -> (received: Received<J>)
        ensures
            final(self)@ == old(self)@.receive(),
            received == old(self)@.offer(),
    {
        match self.items.pop_front() {
            Some(job) => {
                proof {
                    self.delivered@ = self.delivered@.push(job);
                }
                Received::Job(job)
            },
            None => {
                if self.closed {
                    Received::Closed
                } else {
                    Received::Empty
                }
            },
        }
    }

    /// Closes the intake. Closing a closed queue changes nothing.
    pub fn close(&mut self)
        ensures
            final(self)@ == old(self)@.close(),
    {
        self.closed = true;
    }

    /// Whether the intake has been closed.
    pub fn is_closed(&self) -> (closed: bool)
        ensures
            closed == self@.closed,
    {
        self.closed
    }

    /// The number of waiting jobs.
    pub fn len(&self) -> (len: usize)
        ensures
            len == self@.pending.len(),
    {
        self.items.len()
    }

    /// Whether no job waits.
    pub fn is_empty(&self) -> (empty: bool)
        ensures
            empty <==> self@.pending.len() == 0,
    {
        self.items.len() == 0
    }
}

} // verus!
