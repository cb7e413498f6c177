use worker_pool::error::ClosedQueue;
use worker_pool::queue::{JobQueue, Received};

#[test]
fn queue_hands_out_jobs_in_the_order_sent() {
    let mut queue: JobQueue<u32> = JobQueue::new();
    assert_eq!(queue.send(10), Ok(()));
    assert_eq!(queue.send(20), Ok(()));
    assert_eq!(queue.send(30), Ok(()));
    assert_eq!(queue.len(), 3);
    assert!(matches!(queue.receive(), Received::Job(10)));
    assert!(matches!(queue.receive(), Received::Job(20)));
    assert!(matches!(queue.receive(), Received::Job(30)));
    assert!(matches!(queue.receive(), Received::Empty));
    assert!(queue.is_empty());
}

#[test]
fn closed_queue_refuses_and_drains() {
    let mut queue: JobQueue<u32> = JobQueue::new();
    assert_eq!(queue.send(1), Ok(()));
    queue.close();
    assert!(queue.is_closed());
    assert_eq!(queue.send(2), Err(ClosedQueue));
    assert_eq!(queue.len(), 1);
    assert!(matches!(queue.receive(), Received::Job(1)));
    assert!(matches!(queue.receive(), Received::Closed));
    assert!(matches!(queue.receive(), Received::Closed));
}
