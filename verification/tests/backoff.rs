use spinlock::Backoff;

#[test]
fn backoff_first_interval_is_one_millisecond() {
    let mut b = Backoff::new();
    assert_eq!(b.current_delay(), 1);
    assert_eq!(b.step(), 1);
}

#[test]
fn backoff_doubles_after_every_attempt() {
    let mut b = Backoff::new();
    assert_eq!(b.step(), 1);
    assert_eq!(b.step(), 2);
    assert_eq!(b.step(), 4);
    assert_eq!(b.step(), 8);
    assert_eq!(b.step(), 16);
    assert_eq!(b.current_delay(), 32);
}
