use core::sync::atomic::Ordering;
use workgroup::atomic::{WaitableAtomicU32, WaitableAtomicU8};

#[test]
fn store_then_load_round_trip() {
    let cell = WaitableAtomicU8::new(0);
    cell.store(5, Ordering::Relaxed);
    assert_eq!(cell.load(Ordering::Relaxed), 5);

    let wide = WaitableAtomicU32::new(7);
    wide.store(123_456, Ordering::SeqCst);
    assert_eq!(wide.load(Ordering::SeqCst), 123_456);
}

#[test]
fn compare_exchange_succeeds_iff_value_matches() {
    let cell = WaitableAtomicU8::new(5);
    assert_eq!(cell.compare_exchange(5, 7, Ordering::AcqRel, Ordering::Relaxed), Ok(5));
    assert_eq!(cell.load(Ordering::Relaxed), 7);
    assert_eq!(cell.compare_exchange(5, 9, Ordering::AcqRel, Ordering::Relaxed), Err(7));
    assert_eq!(cell.load(Ordering::Relaxed), 7);
}

#[test]
fn fetch_ops_report_previous_value() {
    let cell = WaitableAtomicU8::new(0b0001);
    assert_eq!(cell.fetch_or(0b0010, Ordering::Release), 0b0001);
    assert_eq!(cell.load(Ordering::Relaxed), 0b0011);
    assert_eq!(cell.fetch_and(0b0010, Ordering::Release), 0b0011);
    assert_eq!(cell.load(Ordering::Relaxed), 0b0010);

    let wide = WaitableAtomicU32::new(10);
    assert_eq!(wide.fetch_add(5, Ordering::Relaxed), 10);
    assert_eq!(wide.fetch_sub(3, Ordering::Relaxed), 15);
    assert_eq!(wide.load(Ordering::Relaxed), 12);
}

#[test]
fn wait_not_returns_differing_value_without_parking() {
    let cell = WaitableAtomicU32::new(3);
    assert_eq!(cell.wait_not(0, 10), 3);
    let byte = WaitableAtomicU8::new(1);
    assert_eq!(byte.wait_not(0, 0), 1);
}

#[test]
fn wait_until_returns_satisfying_value() {
    let cell = WaitableAtomicU32::new(4);
    assert_eq!(cell.wait_until(|v| v % 2 == 0, 10), Some(4));
    assert_eq!(cell.wait_until(|v| v == 4, 10), Some(4));
}

#[test]
fn wait_exchange_wins_when_value_matches() {
    let cell = WaitableAtomicU8::new(0);
    assert!(cell.wait_exchange(0, 1, 10, Ordering::Acquire, Ordering::Relaxed));
    assert_eq!(cell.load(Ordering::Relaxed), 1);
}

#[test]
fn wake_without_waiters_is_harmless() {
    let cell = WaitableAtomicU32::new(0);
    cell.wake_one();
    cell.wake_all();
    assert_eq!(cell.load(Ordering::Relaxed), 0);
}
