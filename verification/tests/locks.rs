use workgroup::atomic::lock::rwlock::SpinRWLock;
use workgroup::atomic::lock::spinlock::SpinLock;

#[test]
fn spin_lock_hands_value_out_and_back() {
    let lock = SpinLock::new(10u64);
    let (value, guard) = lock.lock();
    assert_eq!(value, 10);
    guard.unlock(11);
    let (value, guard) = lock.lock();
    assert_eq!(value, 11);
    guard.unlock(value);
}

#[test]
fn spin_lock_sequential_increments_add_up() {
    let lock = SpinLock::new(0u64);
    for _ in 0..1000 {
        let (value, guard) = lock.lock();
        guard.unlock(value + 1);
    }
    let (value, guard) = lock.lock();
    assert_eq!(value, 1000);
    guard.unlock(value);
}

#[test]
fn rw_lock_readers_share() {
    let lock = SpinRWLock::new(vec![1u32, 2, 3]);
    let first = lock.lock_read();
    let second = lock.lock_read();
    assert_eq!(first.borrow(), second.borrow());
    assert_eq!(first.borrow().len(), 3);
    first.unlock();
    second.unlock();
}

#[test]
fn rw_lock_writer_sees_and_replaces() {
    let lock = SpinRWLock::new(vec![1u32, 2, 3]);
    let (mut value, guard) = lock.lock_write();
    value.push(4);
    guard.unlock(value);

    let reader = lock.lock_read();
    assert_eq!(reader.borrow().as_slice(), &[1, 2, 3, 4]);
    reader.unlock();

    let (value, guard) = lock.lock_write();
    assert_eq!(value.len(), 4);
    guard.unlock(value);
}
