use spinlock::Mutex;

#[test]
fn mutex_try_lock() {
    let mut m = Mutex::new(0usize);
    let g = match m.try_lock() {
        None => panic!(),
        Some(g) => g,
    };
    assert_eq!(*g.read(), 0);
    // while the guard is live, a probe is refused
    match m.try_lock() {
        None => assert!(true),
        Some(_) => panic!(),
    }
    // once the guard is handed back, the very next probe succeeds
    m.unlock(g);
    match m.try_lock() {
        None => panic!(),
        Some(g2) => assert_eq!(*g2.read(), 0),
    }
}

#[test]
fn spin_lock() {
    let mut m = Mutex::new(0usize);
    let g = m.spin_lock();
    assert_eq!(*g.read(), 0);
    match m.try_lock() {
        None => assert!(true),
        Some(_) => panic!(),
    }
    m.unlock(g);
    let g2 = m.spin_lock();
    assert_eq!(*g2.read(), 0);
}

#[test]
fn yield_lock() {
    let mut m = Mutex::new(0usize);
    let g = m.yield_lock();
    assert_eq!(*g.read(), 0);
    match m.try_lock() {
        None => assert!(true),
        Some(_) => panic!(),
    }
    m.unlock(g);
    let g2 = m.yield_lock();
    assert_eq!(*g2.read(), 0);
}

#[test]
fn exp_backoff_lock() {
    let mut m = Mutex::new(0usize);
    let g = m.exp_backoff_lock();
    assert_eq!(*g.read(), 0);
    match m.try_lock() {
        None => assert!(true),
        Some(_) => panic!(),
    }
    m.unlock(g);
    let g2 = m.exp_backoff_lock();
    assert_eq!(*g2.read(), 0);
}

#[test]
fn mutex_write_visible_to_next_holder() {
    let mut m = Mutex::new(1u64);
    let mut g = m.spin_lock();
    g.write(42);
    m.unlock(g);
    let g2 = m.try_lock().expect("released lock must grant the probe");
    assert_eq!(*g2.read(), 42);
}

#[test]
fn strategies_interchangeable() {
    // each strategy grants the same exclusive access and leaves the same
    // final state; only the waiting cost differs
    let mut by_spin = Mutex::new(7u32);
    let mut by_yield = Mutex::new(7u32);
    let mut by_backoff = Mutex::new(7u32);

    let a = by_spin.spin_lock();
    let b = by_yield.yield_lock();
    let c = by_backoff.exp_backoff_lock();
    assert_eq!(*a.read(), *b.read());
    assert_eq!(*b.read(), *c.read());

    assert!(by_spin.try_lock().is_none());
    assert!(by_yield.try_lock().is_none());
    assert!(by_backoff.try_lock().is_none());

    by_spin.unlock(a);
    by_yield.unlock(b);
    by_backoff.unlock(c);
    assert!(by_spin.try_lock().is_some());
    assert!(by_yield.try_lock().is_some());
    assert!(by_backoff.try_lock().is_some());
}

#[test]
fn discarded_guard_keeps_lock_held() {
    // a holder that never hands its guard back leaves the lock held for good
    let mut m = Mutex::new(5i32);
    let g = m.try_lock().expect("fresh lock must grant the probe");
    drop(g);
    assert!(m.try_lock().is_none());
    assert!(m.try_lock().is_none());
}
