use dportable::time::Timeout;

#[test]
fn timeout_fires_at_deadline() {
    let t = Timeout::new(10, 100);
    assert_eq!(t, Timeout::Duration { duration: 10, deadline: 110 });
    assert!(!t.is_terminated());
    assert!(!t.is_elapsed(101));
    assert!(!t.is_elapsed(109));
    assert!(t.is_elapsed(110));
}

#[test]
fn timeout_reset_restarts_clock() {
    let mut t = Timeout::new(10, 100);
    t.reset(105);
    assert_eq!(t, Timeout::Duration { duration: 10, deadline: 115 });
    assert!(!t.is_elapsed(112));
    assert!(t.is_elapsed(115));
}

#[test]
fn timeout_never() {
    let mut t = Timeout::never();
    assert!(t.is_terminated());
    assert!(!t.is_elapsed(u64::MAX));
    t.reset(5);
    assert_eq!(t, Timeout::Never);
}
