use dportable::{Mutex, RwLock};

#[test]
fn test_mutex() {
    let a = Mutex::new(2);
    println!("{}", *a.try_lock().unwrap());
    assert_eq!(2, *a.try_lock().unwrap());
    *a.try_lock().unwrap() = 4;
    assert_eq!(4, *a.try_lock().unwrap());
}

#[test]
fn test_rw_lock() {
    let a = RwLock::new(2);
    println!("{}", *a.try_read().unwrap());
    assert_eq!(2, *a.try_read().unwrap());
    *a.try_write().unwrap() = 4;
    assert_eq!(4, *a.try_read().unwrap());
}

#[test]
fn mutex_try_lock_refuses_while_guard_alive() {
    let a = Mutex::new(1);
    let g = a.try_lock().unwrap();
    assert!(a.try_lock().is_none());
    drop(g);
    let mut g = a.try_lock().unwrap();
    *g = 9;
    drop(g);
    assert_eq!(9, *a.try_lock().unwrap());
}

#[test]
fn rw_lock_readers_share_and_writer_excludes() {
    let a = RwLock::new(String::from("x"));
    let r1 = a.try_read().unwrap();
    let r2 = a.try_read().unwrap();
    assert_eq!("x", r1.as_str());
    assert_eq!("x", r2.as_str());
    assert!(a.try_write().is_none());
    drop(r1);
    assert!(a.try_write().is_none());
    drop(r2);
    let mut w = a.try_write().unwrap();
    assert!(a.try_read().is_none());
    assert!(a.try_write().is_none());
    w.push('y');
    drop(w);
    assert_eq!("xy", a.try_read().unwrap().as_str());
}

#[test]
fn guards_have_debug() {
    let a = Mutex::new(3);
    let g = a.try_lock().unwrap();
    assert!(format!("{:?}", g).contains('3'));
}
