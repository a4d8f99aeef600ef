use atomics_lab::spinlock::SpinLock;
use atomics_lab::splc;

#[test]
fn new_lock_is_free_and_first_lock_does_not_wait() {
    let mut l = SpinLock::new(5);
    assert!(!l.lock());
    assert_eq!(*l.get(), 5);
}

#[test]
fn second_lock_waits_until_release() {
    let mut l = SpinLock::new(Vec::<i32>::new());
    assert!(!l.lock());
    l.get_mut().push(1);
    assert!(l.lock());
    l.release();
    assert!(!l.lock());
    l.get_mut().push(12);
    l.get_mut().push(23);
    l.release();
    assert_eq!(*l.get(), vec![1, 12, 23]);
}

#[test]
fn unlock_leaves_lock_held() {
    let mut l = SpinLock::new(0u8);
    l.unlock();
    assert!(l.lock());
    l.release();
    l.unlock();
    assert!(l.lock());
}

#[test]
fn lock_release_roundtrip_keeps_value() {
    let mut l = SpinLock::new(String::from("x"));
    l.lock();
    l.release();
    assert!(!l.lock());
    assert_eq!(l.get().as_str(), "x");
}

#[test]
fn splc_lock_adds_under_guard() {
    let mut l = splc::SpinLock::new(10);
    for i in 0..10 {
        assert!(!l.lock());
        *l.get_mut() += i;
        l.release();
    }
    assert_eq!(*l.get(), 55);
}

#[test]
fn splc_contended_lock_reports_waiting() {
    let mut l = splc::SpinLock::new(1);
    assert!(!l.lock());
    assert!(l.lock());
    l.release();
    assert!(!l.lock());
}
