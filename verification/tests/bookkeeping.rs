use valet_boy::fallback::{
    decode_waiter, encode_waiter, park_enqueue, timed_wake_step, unpark_action,
    wakeup_is_genuine, EnqueueDecision, TimedWakeStep, UnparkAction,
};
use valet_boy::keyed::{keyed_register, keyed_wake_count, keyed_wakeup_reason};
use valet_boy::park::{park_entry, unpark_should_wake};
use valet_boy::probe::{probe_step, ProbeStep, EMPTY, INITIALIZING, READY};
use valet_boy::protocol::ParkEntry;
use valet_boy::waiters::{free_bits, needs_wake, registered, reserved_bits_clear, wait_over};
use valet_boy::{WakeupReason, FREE_BITS, RESERVED_BITS, RESERVED_MASK};

// The layout constants agree with one another: five free bits on a 32-bit
// word, and the mask covering exactly the rest.
#[test]
fn layout_constants_agree() {
    assert_eq!(FREE_BITS, 5);
    assert_eq!(FREE_BITS + RESERVED_BITS, 32);
    assert_eq!(RESERVED_MASK, (1u32 << RESERVED_BITS) - 1);
    assert_eq!(valet_boy::keyed::COUNTER_MASK | valet_boy::keyed::STATE_MASK, RESERVED_MASK);
}

// A simulated spurious wakeup: the cell is unchanged, so neither waiting
// loop may exit.
#[test]
fn spurious_wake_keeps_waiting() {
    // The broadcast waiter registered on user state 0 still sees its own
    // registration pattern.
    assert!(!wait_over(registered(0), 0));
    // The parker's entry on a parked word is a rejection, never an exit.
    assert_eq!(park_entry(1), ParkEntry::Occupied);
}

#[test]
fn only_clear_reserved_bits_are_accepted() {
    assert!(reserved_bits_clear(0));
    assert!(reserved_bits_clear(0x10 << 27));
    assert!(!reserved_bits_clear(1));
    assert!(!reserved_bits_clear((0x10 << 27) | 0x4));
}

#[test]
fn waiter_registration_raises_flag_only() {
    let pattern: u32 = 0x10 << 27;
    assert_eq!(registered(pattern), pattern | 1);
    assert_eq!(free_bits(registered(pattern)), pattern);
    assert!(needs_wake(registered(pattern)));
}

// With the flag clear nothing is owed: no waiters, no syscall.
#[test]
fn no_waiters_no_wake() {
    assert!(!needs_wake(0));
    assert!(!needs_wake(0x10 << 27));
}

#[test]
fn parker_decisions() {
    assert_eq!(park_entry(2), ParkEntry::ConsumeNotification);
    assert_eq!(park_entry(1), ParkEntry::Occupied);
    assert!(unpark_should_wake(1));
    assert!(!unpark_should_wake(0));
    assert!(!unpark_should_wake(2));
}

#[test]
fn keyed_counter_tracks_sleepers() {
    assert_eq!(keyed_register(0, 0), Some(1));
    assert_eq!(keyed_register(5, 0), Some(6));
    let pattern: u32 = 0x10 << 27;
    assert_eq!(keyed_register(pattern | 3, pattern), Some(pattern | 4));
    // The user state moved on: the thread must not sleep.
    assert_eq!(keyed_register(pattern, 0), None);
    assert_eq!(keyed_wake_count(pattern | 7), 7);
    assert_eq!(keyed_wake_count(pattern), 0);
}

#[test]
fn keyed_status_reclassified() {
    assert_eq!(keyed_wakeup_reason(0, false), WakeupReason::Unknown);
    assert_eq!(keyed_wakeup_reason(0x102, true), WakeupReason::TimedOut);
    // A timeout status without a timeout supplied is not believed.
    assert_eq!(keyed_wakeup_reason(0x102, false), WakeupReason::Unknown);
    assert_eq!(keyed_wakeup_reason(0x101, false), WakeupReason::Interrupt);
    assert_eq!(keyed_wakeup_reason(0xC0, true), WakeupReason::Interrupt);
    assert_eq!(keyed_wakeup_reason(7, false), WakeupReason::Unknown);
}

#[test]
fn fallback_unparker_decisions() {
    assert_eq!(unpark_action(0), UnparkAction::NoWaiter);
    assert_eq!(unpark_action(1), UnparkAction::AlreadyNotified);
    assert_eq!(unpark_action(0x10), UnparkAction::Signal(0x10));
    assert_eq!(unpark_action(0x11), UnparkAction::AlreadyNotified);
}

#[test]
fn fallback_waiter_decisions() {
    let pattern: u32 = 0x10 << 27;
    assert_eq!(park_enqueue(pattern, 0x20), EnqueueDecision::Install(pattern | 0x20));
    assert_eq!(park_enqueue(1, 0x20), EnqueueDecision::AlreadyNotified);
    assert!(wakeup_is_genuine(1));
    assert!(wakeup_is_genuine(pattern | 1));
    assert!(!wakeup_is_genuine(pattern | 0x20));
    assert_eq!(timed_wake_step(pattern | 1), TimedWakeStep::AwaitWaker);
    assert_eq!(timed_wake_step(pattern | 0x20), TimedWakeStep::Withdraw(pattern));
}

#[test]
fn probe_decisions() {
    assert_eq!(probe_step(READY), ProbeStep::UseCached);
    assert_eq!(probe_step(EMPTY), ProbeStep::Resolve);
    assert_eq!(probe_step(INITIALIZING), ProbeStep::Spin);
}

#[test]
fn fallback_pointer_roundtrip() {
    assert_eq!(encode_waiter(0x40), 2);
    assert_eq!(decode_waiter(2), 0x40);
    assert_eq!(decode_waiter(encode_waiter(0x0001_2340)), 0x0001_2340);
}
