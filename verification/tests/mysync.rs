use mpmc::mysync::{MyAutoEvent, RC1, RC2, RC3, RC4};

#[test]
fn rc_aquire_waits_without_resources() {
    let mut rc = RC1::new();
    assert!(rc.Aquire());
    assert!(rc.Release());
    let mut rc = RC2::new_count(1);
    assert!(!rc.Aquire());
    assert!(rc.Aquire());
    assert!(rc.Release());
    assert!(!rc.Release());
}

#[test]
fn rc_release_then_aquire_round_trip() {
    let mut rc = RC3::new_count(2);
    assert!(!rc.Release());
    assert!(!rc.Aquire());
    assert!(!rc.Aquire());
    assert!(!rc.Aquire());
    assert!(rc.Aquire());
    let mut rc = RC4::new();
    for _ in 0..9 {
        rc.Release();
    }
    for _ in 0..9 {
        assert!(!rc.Aquire());
    }
    assert!(rc.Aquire());
}

#[test]
fn auto_event_set_then_wait() {
    let mut ev = MyAutoEvent::<i64>::new();
    assert!(!ev.set_event_value(5));
    assert_eq!(ev.wait(), Some(5));
    assert_eq!(ev.wait(), None);
    // a waiter is now counted, so setting wakes it
    assert!(ev.set_event_value(6));
    assert!(ev.set_event_value(7));
    assert_eq!(ev.wait_again(), Some(7));
    assert!(!ev.set_event_value(8));
}

#[test]
fn auto_event_from_signal_value() {
    let mut ev = MyAutoEvent::from_signal_value("x");
    assert_eq!(ev.wait(), Some("x"));
}
