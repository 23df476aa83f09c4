use mpmc::mpmcq2::{new_share_queue, new_share_queue_capacity, Event, FQueue, Indexer, MyQueue, Pop, Push, QueueErr};

#[test]
fn mpmcq2_round_trip() {
    let mut q = new_share_queue_capacity::<i32>(4);
    for i in 0..4 {
        assert!(matches!(q.push(i), Push::Done { wake_elem: false }));
    }
    for i in 0..4 {
        match q.pop() {
            Pop::Item { value, wake_room } => {
                assert_eq!(value, i);
                assert!(!wake_room);
            }
            _ => panic!("expected an element"),
        }
    }
}

#[test]
fn mpmcq2_blocked_pop_is_woken_by_push() {
    let mut q = FQueue::<i32>::new(2);
    assert!(matches!(q.de_queue(), Pop::Blocked));
    // the waiting consumer is counted: the next producer wakes it
    assert!(matches!(q.en_queue(5), Push::Done { wake_elem: true }));
    assert!(matches!(q.de_queue_resume(), Pop::Item { value: 5, wake_room: false }));
}

#[test]
fn mpmcq2_close_send_wakes_a_waiting_consumer_with_the_error() {
    let mut q = FQueue::<i32>::new(2);
    assert!(matches!(q.de_queue(), Pop::Blocked));
    assert!(q.close_send());
    assert!(!q.close_send());
    match q.de_queue_resume() {
        Pop::Failed(QueueErr::SendEndClosed(msg)) => {
            assert_eq!(msg, "queue's send end has been closed")
        }
        _ => panic!("expected the send-end error"),
    }
    assert!(matches!(q.en_queue(1), Push::Failed(QueueErr::SendEndClosed(_))));
}

#[test]
fn mpmcq2_close_send_lets_waiting_consumers_drain_first() {
    let mut q = FQueue::<i32>::new(2);
    assert!(matches!(q.en_queue(1), Push::Done { .. }));
    assert!(q.close_send());
    assert!(matches!(q.de_queue(), Pop::Item { value: 1, .. }));
    assert!(matches!(q.de_queue(), Pop::Failed(QueueErr::SendEndClosed(_))));
}

#[test]
fn mpmcq2_share_queue_keeps_order() {
    // a producer of 0..10 and a consumer on a queue of 4 slots, one step at
    // a time: the consumer gets 0..10 in order
    let mut q = new_share_queue_capacity::<i32>(4);
    let mut waiting: Option<i32> = None;
    let mut next_in = 0;
    let mut next_out = 0;
    while next_out < 10 {
        if let Some(e) = waiting.take() {
            if let Push::Blocked(e) = q.push_resume(e) {
                waiting = Some(e);
            }
        } else if next_in < 10 {
            match q.push(next_in) {
                Push::Done { .. } => {}
                Push::Blocked(e) => waiting = Some(e),
                Push::Failed(e) => panic!("{:?}", e),
            }
            next_in += 1;
        }
        if next_in == 10 || waiting.is_some() {
            match q.pop() {
                Pop::Item { value, .. } => {
                    assert_eq!(value, next_out);
                    next_out += 1;
                }
                _ => panic!("expected an element"),
            }
        }
    }
    assert!(waiting.is_none());
}

#[test]
fn mpmcq2_receive_closed_refuses() {
    let mut q = new_share_queue::<i32>();
    assert!(matches!(q.push(1), Push::Done { .. }));
    assert!(q.close_receive());
    match q.pop() {
        Pop::Failed(QueueErr::ReceiveEndClosed(msg)) => {
            assert_eq!(msg, "queue's receive end has been closed")
        }
        _ => panic!("expected the receive-end error"),
    }
    assert!(matches!(q.pop_resume(), Pop::Failed(QueueErr::ReceiveEndClosed(_))));
}

#[test]
fn mpmcq2_send_closed_refuses() {
    let mut q = MyQueue::<i32>::new_with_capacity(1);
    assert_eq!(q.close(), (true, true));
    assert_eq!(q.close(), (false, false));
    match q.push(3) {
        Push::Failed(QueueErr::SendEndClosed(msg)) => {
            assert_eq!(msg, "queue's send end has been closed")
        }
        _ => panic!("expected the send-end error"),
    }
    assert!(matches!(q.push_resume(3), Push::Failed(QueueErr::SendEndClosed(_))));
}

#[test]
fn mpmcq2_full_queue_push_waits() {
    let mut q = MyQueue::<i32>::new_with_capacity(1);
    assert!(matches!(q.push(1), Push::Done { .. }));
    assert!(matches!(q.push(2), Push::Blocked(2)));
    // a spurious wake-up does not let it through
    assert!(matches!(q.push_resume(2), Push::Blocked(2)));
    assert!(matches!(q.pop(), Pop::Item { value: 1, wake_room: true }));
    assert!(matches!(q.push_resume(2), Push::Done { wake_elem: false }));
    assert!(matches!(q.pop(), Pop::Item { value: 2, wake_room: false }));
}

#[test]
fn mpmcq2_event_counts_permits() {
    let mut ev = Event::new(1);
    assert!(!ev.wait());
    assert!(ev.wait());
    ev.notify();
    ev.notify_all();
    assert!(!ev.wait());
}

#[test]
fn mpmcq2_indexer_runs_round() {
    let mut ix = Indexer::new(-1, 3);
    assert_eq!(ix.next(), 0);
    assert_eq!(ix.next(), 1);
    assert_eq!(ix.next(), 2);
    assert_eq!(ix.next(), 0);
}
