use mpmc::fast_queue::{DeQueue, EnQueue, FQueue};

/// Takes one element as the blocking queue would, when no wait is needed.
fn take<T>(q: &mut FQueue<T>) -> Option<T> {
    match q.de_queue() {
        DeQueue::Item { value, .. } => Some(value),
        DeQueue::Closed => None,
        DeQueue::Empty => panic!("the queue would block"),
    }
}

fn put<T>(q: &mut FQueue<T>, e: T) -> bool {
    match q.en_queue(e) {
        EnQueue::Done { .. } => true,
        EnQueue::Closed => false,
        EnQueue::Full(_) => panic!("the queue would block"),
    }
}

#[test]
fn test_q1() {
    let mut q = FQueue::<i32>::new(10);

    put(&mut q, 1);
    put(&mut q, 2);
    put(&mut q, 3);

    let e = take(&mut q);
    assert_eq!(Some(1), e);
    let e = take(&mut q);
    assert_eq!(Some(2), e);
    let e = take(&mut q);
    assert_eq!(Some(3), e);

    q.close();
    let e = take(&mut q);
    assert_eq!(None, e);
}

#[test]
fn fast_queue_round_trip_law() {
    let mut q = FQueue::<u8>::new(1);
    assert!(matches!(q.en_queue(9), EnQueue::Done { wake_room: false, wake_elem: true }));
    assert!(matches!(q.de_queue(), DeQueue::Item { value: 9, wake_elem: false, wake_room: true }));
    assert!(matches!(q.de_queue(), DeQueue::Empty));
}

#[test]
fn fast_queue_full_hands_element_back() {
    let mut q = FQueue::<i32>::new(2);
    assert!(put(&mut q, 1));
    assert!(matches!(q.en_queue(2), EnQueue::Done { wake_room: false, wake_elem: false }));
    match q.en_queue(3) {
        EnQueue::Full(v) => assert_eq!(v, 3),
        _ => panic!("expected a full queue"),
    }
    assert!(matches!(q.de_queue(), DeQueue::Item { value: 1, wake_elem: true, wake_room: true }));
    assert!(put(&mut q, 3));
    assert_eq!(take(&mut q), Some(2));
    assert_eq!(take(&mut q), Some(3));
}

#[test]
fn fast_queue_keeps_order_round_the_ring() {
    let mut q = FQueue::<u32>::new(3);
    let mut next_in = 0u32;
    let mut next_out = 0u32;
    for round in 0..50u32 {
        let n = round % 3 + 1;
        for _ in 0..n {
            assert!(put(&mut q, next_in));
            next_in += 1;
        }
        for _ in 0..n {
            assert_eq!(take(&mut q), Some(next_out));
            next_out += 1;
        }
    }
    assert!(matches!(q.de_queue(), DeQueue::Empty));
}

#[test]
fn fast_queue_close_once_law() {
    let mut q = FQueue::<i32>::new(4);
    assert!(q.close());
    assert!(!q.close());
    assert!(matches!(q.en_queue(5), EnQueue::Closed));
}

#[test]
fn fast_queue_closed_drains_law() {
    let mut q = FQueue::<i32>::new(4);
    put(&mut q, 7);
    put(&mut q, 8);
    q.close();
    assert!(!put(&mut q, 9));
    assert_eq!(take(&mut q), Some(7));
    assert_eq!(take(&mut q), Some(8));
    assert_eq!(take(&mut q), None);
    assert_eq!(take(&mut q), None);
}

#[test]
fn fast_queue_without_capacity_is_always_full() {
    let mut q = FQueue::<i32>::new(0);
    assert!(matches!(q.en_queue(1), EnQueue::Full(1)));
    assert!(matches!(q.de_queue(), DeQueue::Empty));
    q.close();
    assert!(matches!(q.de_queue(), DeQueue::Closed));
}

#[test]
fn fast_queue_sums_match() {
    let mut q = FQueue::<i32>::new(10);
    let mut sent = 0;
    let mut received = 0;
    for i in 0..1000 {
        let v = i + 1;
        sent += v;
        if let EnQueue::Full(v) = q.en_queue(v) {
            while let DeQueue::Item { value, .. } = q.de_queue() {
                received += value;
            }
            assert!(put(&mut q, v));
        }
    }
    q.close();
    while let Some(v) = take(&mut q) {
        received += v;
    }
    assert_eq!(sent, received);
}
