use std::time::{Duration, Instant};

use valet_boy::park::ParkResult;
use valet_boy::{AtomicCell, Futex, Parker, WakeupReason, Waiters, RESERVED_BITS};

// This test will hang if the futex does not check the condition value.
#[test]
fn futex_checks_condition() {
    let futex = AtomicCell::new(0);
    let _ = futex.wait(1, None);
}

// This test will hang if the futex does not wake from a timeout.
#[test]
fn futex_wakes_from_timeout() {
    let futex = AtomicCell::new(0);
    let _ = futex.wait(0, Some(Duration::from_millis(10)));
}

#[test]
fn unpark_timeout() {
    let parker = Parker::new();
    let _ = parker.park(Some(Duration::from_millis(10)));
}

// A park with a timeout on an untouched parker returns on its own, well
// within the platform's granularity plus scheduling slop.
#[test]
fn timed_park_returns_promptly() {
    let parker = Parker::new();
    let before = Instant::now();
    let r = parker.park(Some(Duration::from_millis(10)));
    let elapsed = before.elapsed();
    assert_eq!(r, ParkResult::Completed);
    assert!(elapsed >= Duration::from_millis(10));
    assert!(elapsed < Duration::from_millis(200));
}

// A zero timeout is rejected outright; no platform supports it coherently.
#[test]
fn zero_timeout_rejected() {
    let parker = Parker::new();
    assert_eq!(parker.park(Some(Duration::from_millis(0))), ParkResult::ZeroTimeout);
    assert_eq!(parker.park(Some(Duration::new(0, 0))), ParkResult::ZeroTimeout);
    // The rejection left no state behind: a pending unpark is still
    // consumed as usual.
    parker.unpark();
    assert_eq!(parker.park(None), ParkResult::Completed)
}

// An unpark that lands before the park leaves a pending notification, and
// the park that follows consumes it and returns at once.
#[test]
fn unpark_before_park_returns_immediately() {
    let parker = Parker::new();
    parker.unpark();
    let before = Instant::now();
    assert_eq!(parker.park(None), ParkResult::Completed);
    assert!(before.elapsed() < Duration::from_millis(200));
}

// Unparking twice with no park in between leaves a single pending
// notification: the first park after it returns at once, and a second,
// timed park really waits — the notification was consumed, the state is
// back to not-parked.
#[test]
fn unpark_is_idempotent() {
    let parker = Parker::new();
    parker.unpark();
    parker.unpark();
    assert_eq!(parker.park(None), ParkResult::Completed);
    let before = Instant::now();
    assert_eq!(parker.park(Some(Duration::from_millis(10))), ParkResult::Completed);
    assert!(before.elapsed() >= Duration::from_millis(10));
}

// A store-and-wake with no waiters simply stores: the cell afterwards holds
// exactly the stored value, bit for bit.
#[test]
fn store_and_wake_stores_bitwise() {
    let cell = AtomicCell::new(0);
    let pattern: u32 = 0x10 << RESERVED_BITS;
    cell.store_and_wake(pattern);
    assert_eq!(cell.load(), pattern);
}

// A waiter whose expected user state has already moved on does not block.
#[test]
fn compare_and_wait_checks_free_bits() {
    let pattern: u32 = 0x10 << RESERVED_BITS;
    let cell = AtomicCell::new(pattern);
    cell.compare_and_wait(0);
    assert_eq!(cell.load(), pattern);
}

// An expected value with reserved bits set is a contract violation: the
// call is rejected at once and the cell is left untouched — even when the
// cell happens to hold exactly that value, which would otherwise park the
// thread.
#[test]
fn compare_and_wait_rejects_reserved_bits() {
    let malformed: u32 = (0x10 << RESERVED_BITS) | 0x4;
    let cell = AtomicCell::new(malformed);
    cell.compare_and_wait(malformed);
    assert_eq!(cell.load(), malformed);
}

// The wait call reports a value mismatch without parking the thread.
#[test]
fn futex_wait_reports_mismatch() {
    let futex = AtomicCell::new(7);
    match futex.wait(8, None) {
        Ok(WakeupReason::NoMatch) => {}
        Ok(other) => panic!("kernel reported {:?} for a mismatched value", other),
        Err(()) => panic!("wait is implemented"),
    }
}

// A timeout far beyond the kernel's representation waits indefinitely
// instead of failing: with a mismatched value the call still returns at
// once, exactly as an untimed wait would.
#[test]
fn oversized_timeout_waits_like_infinite() {
    let futex = AtomicCell::new(7);
    let huge = Duration::new(u64::MAX, 0);
    let before = Instant::now();
    let _ = futex.wait(8, Some(huge));
    assert!(before.elapsed() < Duration::from_millis(200));
}
