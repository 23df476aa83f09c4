use mpmc::usizeq::{MyAtomicUsize, Position, UsizePop, UsizePush, UsizeQ, QUEUE_SIZE};

#[test]
fn atomic_operations() {
    let mut a = MyAtomicUsize::new(5);
    assert_eq!(a.load(), 5);
    assert_eq!(a.fetch(), 5);
    assert_eq!(a.get_val(), 5);
    a.store(7);
    assert_eq!(a.swap(9), 7);
    assert_eq!(a.fetch_add(1), 9);
    assert_eq!(a.fetch_sub(4), 10);
    assert_eq!(a.load(), 6);
    assert_eq!(a.compare_and_swap(6, 1), 6);
    assert_eq!(a.load(), 1);
    assert_eq!(a.compare_and_swap(6, 2), 1);
    assert_eq!(a.load(), 1);
}

#[test]
fn atomic_wraps_round() {
    let mut a = MyAtomicUsize::new(usize::MAX);
    assert_eq!(a.fetch_add(2), usize::MAX);
    assert_eq!(a.load(), 1);
    assert_eq!(a.fetch_sub(2), 1);
    assert_eq!(a.load(), usize::MAX);
}

#[test]
fn position_runs_round() {
    let mut p = Position::new(0, 3);
    assert_eq!(p.get(), 0);
    assert_eq!(p.get_and_inc(), 0);
    assert_eq!(p.next(), 2);
    assert_eq!(p.next(), 0);
    assert_eq!(p.get(), 0);
}

#[test]
fn usize_queue_order_and_capacity() {
    let mut q = UsizeQ::new();
    assert!(matches!(q.pop(), UsizePop::Empty));
    assert!(matches!(q.push(11), UsizePush::Done { wake_room: true, wake_elem: true }));
    assert!(matches!(q.push(12), UsizePush::Done { wake_room: true, wake_elem: false }));
    assert!(matches!(q.pop(), UsizePop::Item { value: 11, wake_elem: true, wake_room: false }));
    assert!(matches!(q.pop(), UsizePop::Item { value: 12, wake_elem: false, wake_room: false }));
    for i in 0..QUEUE_SIZE {
        assert!(matches!(q.push(i), UsizePush::Done { .. }));
    }
    assert!(matches!(q.push(0), UsizePush::Full));
    assert!(matches!(q.pop(), UsizePop::Item { value: 0, wake_room: true, .. }));
    for i in 1..QUEUE_SIZE {
        match q.pop() {
            UsizePop::Item { value, .. } => assert_eq!(value, i),
            UsizePop::Empty => panic!("expected a value"),
        }
    }
}
