use dportable::value::mutable::ResettableState;
use dportable::value::{AlreadySet, NotifyState, OnceState};

#[test]
fn once_state_first_set_wins() {
    let mut s: OnceState<i32, &str> = OnceState::new("producer");
    assert_eq!(s.try_get(), None);
    assert_eq!(s.set(5), Ok("producer"));
    assert_eq!(s.set(1), Err(AlreadySet {}));
    assert_eq!(s.try_get(), Some(&5));
    assert_eq!(s.set(7), Err(AlreadySet {}));
    assert_eq!(s.try_get(), Some(&5));
}

#[test]
fn once_state_racing_sets_agree() {
    let mut s: OnceState<u8, u8> = OnceState::new(0);
    let r1 = s.set(1);
    let r2 = s.set(2);
    assert!(r1.is_ok());
    assert_eq!(r2, Err(AlreadySet {}));
    assert_eq!(s.try_get(), Some(&1));
}

#[test]
fn notify_state_is_idempotent() {
    let mut n: NotifyState<u32> = NotifyState::new(11);
    assert!(!n.already_notified());
    assert_eq!(n.notify(), Some(11));
    assert!(n.already_notified());
    assert_eq!(n.notify(), None);
    assert!(n.already_notified());
}

#[test]
fn test_take() {
    let mut value: ResettableState<i32, u32, char> = ResettableState::new(0, 'a');
    assert_eq!(value.take(1, 'b'), None);
    assert_eq!(value.set(3), Ok(0));
    assert_eq!(value.take(2, 'c').unwrap(), 3);
    assert_eq!(value.take(3, 'd'), None);
    assert_eq!(*value.current_consumer(), 'c');
    assert_eq!(value.set(5), Ok(2));
    assert_eq!(value.try_get(), Some(&5));
    assert_eq!(*value.current_consumer(), 'c');
}

#[test]
fn resettable_set_twice_fails() {
    let mut value: ResettableState<i32, u32, char> = ResettableState::new(0, 'a');
    assert_eq!(value.try_get(), None);
    assert_eq!(value.set(5), Ok(0));
    assert_eq!(value.set(1), Err(AlreadySet {}));
    assert_eq!(value.try_get(), Some(&5));
}

#[test]
fn resettable_empty_take_keeps_pending_epoch() {
    let mut value: ResettableState<i32, &str, char> = ResettableState::new("first", 'a');
    assert_eq!(value.try_get(), None);
    assert_eq!(value.take("unused", 'z'), None);
    assert_eq!(*value.current_consumer(), 'a');
    assert_eq!(value.set(7), Ok("first"));
    assert_eq!(value.try_get(), Some(&7));
}

#[test]
fn already_set_message() {
    assert_eq!(AlreadySet {}.message(), "value already set");
}
