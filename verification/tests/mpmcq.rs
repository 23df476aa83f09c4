use mpmc::mpmcq::{new_share_queue, new_share_queue_capacity, FQueue, MyQueue, Pop, Push, QueueErr};

fn pop_value<T>(q: &mut MyQueue<T>) -> T {
    match q.pop() {
        Pop::Item { value, .. } => value,
        _ => panic!("expected an element"),
    }
}

#[test]
fn mpmcq_queue_keeps_order() {
    let mut q = new_share_queue_capacity::<i32>(4);
    let mut next = 0;
    for i in 0..10 {
        loop {
            match q.push(i) {
                Push::Done { .. } => break,
                Push::Full(_) => {
                    assert_eq!(pop_value(&mut q), next);
                    next += 1;
                }
                Push::Failed(e) => panic!("{:?}", e),
            }
        }
    }
    while next < 10 {
        assert_eq!(pop_value(&mut q), next);
        next += 1;
    }
    assert!(matches!(q.pop(), Pop::Empty));
}

#[test]
fn mpmcq_wake_flags() {
    let mut q = FQueue::<u8>::new(2);
    assert!(matches!(q.en_queue(1), Push::Done { wake_room: true, wake_elem: true }));
    assert!(matches!(q.en_queue(2), Push::Done { wake_room: false, wake_elem: false }));
    assert!(matches!(q.en_queue(3), Push::Full(3)));
    assert!(matches!(q.de_queue(), Pop::Item { value: 1, wake_elem: true, wake_room: true }));
    assert!(matches!(q.de_queue(), Pop::Item { value: 2, wake_elem: false, wake_room: false }));
    assert!(matches!(q.de_queue(), Pop::Empty));
}

#[test]
fn mpmcq_send_closed_refuses_and_drains() {
    let mut q = new_share_queue_capacity::<i32>(4);
    assert!(matches!(q.push(1), Push::Done { .. }));
    assert!(q.close_send());
    assert!(!q.close_send());
    match q.push(2) {
        Push::Failed(QueueErr::SendEndClosed(msg)) => {
            assert_eq!(msg, "queue's send end has been closed")
        }
        _ => panic!("expected the send-end error"),
    }
    assert_eq!(pop_value(&mut q), 1);
    assert!(matches!(q.pop(), Pop::Failed(QueueErr::SendEndClosed(_))));
}

#[test]
fn mpmcq_receive_closed_refuses() {
    let mut q = new_share_queue_capacity::<i32>(1);
    assert!(matches!(q.push(1), Push::Done { .. }));
    assert!(q.close_receive());
    assert!(!q.close_receive());
    match q.pop() {
        Pop::Failed(QueueErr::ReceiveEndClosed(msg)) => {
            assert_eq!(msg, "queue's receive end has been closed")
        }
        _ => panic!("expected the receive-end error"),
    }
    // full, and nobody will ever take: a producer is refused, not parked
    assert!(matches!(q.push(2), Push::Failed(QueueErr::ReceiveEndClosed(_))));
}

#[test]
fn mpmcq_receive_closed_still_takes_pushes_with_room() {
    let mut q = new_share_queue_capacity::<i32>(2);
    q.close_receive();
    assert!(matches!(q.push(1), Push::Done { .. }));
}

#[test]
fn mpmcq_close_closes_both_ends() {
    let mut q = new_share_queue::<i32>();
    assert_eq!(q.close(), (true, true));
    assert_eq!(q.close(), (false, false));
    assert!(matches!(q.push(1), Push::Failed(QueueErr::SendEndClosed(_))));
    assert!(matches!(q.pop(), Pop::Failed(QueueErr::ReceiveEndClosed(_))));
}

#[test]
fn mpmcq_default_capacity() {
    let mut q = MyQueue::<u16>::new();
    for i in 0..4096u16 {
        assert!(matches!(q.push(i), Push::Done { .. }));
    }
    assert!(matches!(q.push(0), Push::Full(0)));
    let mut w = MyQueue::<u16>::new_with_capacity(3);
    for i in 0..3u16 {
        assert!(matches!(w.push(i), Push::Done { .. }));
    }
    assert!(matches!(w.push(9), Push::Full(9)));
}
