use atomics_lab::producer_consumer::{JobQueue, FULL_CAPACITY};

#[test]
fn bounded_queue_refuses_when_full() {
    let mut q = JobQueue::bounded(FULL_CAPACITY);
    for i in 0..10 {
        assert_eq!(q.offer(i), Ok(()));
    }
    assert!(q.is_full_now());
    assert_eq!(q.len(), 10);
    assert_eq!(q.offer(99), Err(99));
    assert_eq!(q.len(), 10);
}

#[test]
fn take_returns_last_offered_first() {
    let mut q = JobQueue::bounded(FULL_CAPACITY);
    q.offer(1).unwrap();
    q.offer(2).unwrap();
    q.offer(3).unwrap();
    assert_eq!(q.take(), Some(3));
    assert_eq!(q.take(), Some(2));
    assert_eq!(q.take(), Some(1));
    assert_eq!(q.take(), None);
}

#[test]
fn empty_queue_makes_consumer_wait() {
    let mut q: JobQueue<u32> = JobQueue::unbounded();
    assert_eq!(q.take(), None);
    assert!(!q.is_full_now());
}

#[test]
fn unbounded_queue_never_full() {
    let mut q = JobQueue::unbounded();
    for i in 0..100u32 {
        assert_eq!(q.offer(i), Ok(()));
        assert!(!q.is_full_now());
    }
    assert_eq!(q.len(), 100);
    assert_eq!(q.take(), Some(99));
}

#[test]
fn full_queue_accepts_after_a_take() {
    let mut q = JobQueue::bounded(2);
    q.offer('a').unwrap();
    q.offer('b').unwrap();
    assert_eq!(q.offer('c'), Err('c'));
    assert_eq!(q.take(), Some('b'));
    assert_eq!(q.offer('c'), Ok(()));
    assert_eq!(q.take(), Some('c'));
    assert_eq!(q.take(), Some('a'));
}

#[test]
fn zero_capacity_queue_is_always_full() {
    let mut q = JobQueue::bounded(0);
    assert!(q.is_full_now());
    assert_eq!(q.offer(5), Err(5));
}
