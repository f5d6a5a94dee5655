use sleeping_ta::semaphore::Semaphore;

#[test]
fn new_semaphore_holds_the_given_count() {
    let sem = Semaphore::new(3);
    assert_eq!(sem.permits(), 3);
    assert!(sem.available());
}

#[test]
fn try_acquire_takes_permits_until_none_is_left() {
    let mut sem = Semaphore::new(2);
    assert!(sem.try_acquire());
    assert!(sem.try_acquire());
    assert!(!sem.try_acquire());
    assert_eq!(sem.permits(), 0);
}

#[test]
fn try_acquire_leaves_a_negative_count_alone() {
    let mut sem = Semaphore::new(-1);
    assert!(!sem.available());
    assert!(!sem.try_acquire());
    assert_eq!(sem.permits(), -1);
}

#[test]
fn release_adds_one_permit() {
    let mut sem = Semaphore::new(0);
    sem.release();
    assert_eq!(sem.permits(), 1);
    assert!(sem.try_acquire());
    assert_eq!(sem.permits(), 0);
}

#[test]
fn acquire_takes_one_permit() {
    let mut sem = Semaphore::new(5);
    sem.acquire();
    assert_eq!(sem.permits(), 4);
}
