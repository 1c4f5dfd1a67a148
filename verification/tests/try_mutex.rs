use spinlock::TryMutex;

#[test]
fn try_mutex_try_lock() {
    let mut m = TryMutex::new(0usize);
    let g = match m.try_lock() {
        None => panic!(),
        Some(g) => g,
    };
    assert_eq!(*g.read(), 0);
    // while the guard is live, a probe is refused
    match m.try_lock() {
        None => assert!(true),
        Some(_) => panic!(),
    }
    // once the guard is handed back, the very next probe succeeds
    m.unlock(g);
    match m.try_lock() {
        None => panic!(),
        Some(g2) => assert_eq!(*g2.read(), 0),
    }
}

#[test]
fn try_mutex_write_visible_to_next_holder() {
    let mut m = TryMutex::new(1u64);
    let mut g = m.try_lock().expect("fresh lock must grant the probe");
    g.write(42);
    m.unlock(g);
    let g2 = m.try_lock().expect("released lock must grant the probe");
    assert_eq!(*g2.read(), 42);
}

#[test]
fn try_mutex_discarded_guard_keeps_lock_held() {
    // a holder that never hands its guard back leaves the lock held for good
    let mut m = TryMutex::new(5i32);
    let g = m.try_lock().expect("fresh lock must grant the probe");
    drop(g);
    assert!(m.try_lock().is_none());
    assert!(m.try_lock().is_none());
}
