//! The OS primitive adapter: a futex-style wait/wake pair on a 32-bit cell.
//!
//! The kernel calls go through the `linux-futex` crate, always with the
//! process-private flag.  Everything the kernel reports is reclassified into
//! a [`WakeupReason`]; no error code ever reaches a caller.  The adapter
//! does not guard against spurious wakeups: callers must re-check the cell
//! and sleep again.

use core::sync::atomic::{AtomicU32, Ordering};
use core::time::Duration;

use vstd::prelude::*;

use crate::timeout::{fits_kernel_seconds, secs_of};

verus! {

/// Reason the operating system gave for waking a thread.  The kernels'
/// reports are too weak for callers to rely on; the adapter's state machines
/// treat everything short of a decisive answer as possibly spurious.
#[derive(Clone, Copy, PartialEq, Eq, Structural, Debug)]
pub enum WakeupReason {
    /// The thread was not put to sleep, because the cell did not hold the
    /// expected value.  Not every platform reports this case.
    NoMatch,
    /// The thread was woken because its timeout expired.
    TimedOut,
    /// The thread was woken by an interrupt (a signal).
    Interrupt,
    /// The thread was woken by a wake call.
    WokenUp,
    /// The thread may have been woken by a wake call, but also for any other
    /// reason; callers must treat this as possibly spurious.
    Unknown,
}

/// A futex-style wait/wake interface on a 32-bit cell.
///
/// `wait` puts the calling thread to sleep only while the cell holds
/// `expected`; it may return spuriously.  `wake` rouses every thread
/// sleeping on the cell.  A timeout is relative; platforms round it up to
/// their granularity, and one that overflows the kernel's representation is
/// treated as no timeout at all.
pub trait Futex {
    type Integer;

    /// Park the current thread while `self` equals `expected`, until a wake
    /// call, the expiry of `timeout`, or a spurious wakeup.  A timed-out
    /// report can only come back when a timeout was supplied.
    fn wait(&self, expected: Self::Integer, timeout: Option<Duration>) -> (r: Result<
        WakeupReason,
        (),
    >)
        ensures
            timeout is None ==> !(r == Ok::<WakeupReason, ()>(WakeupReason::TimedOut)),
    {
        Err(())
    }

    /// Wake all threads waiting on `self`.  The count is the number of woken
    /// threads where the platform reports it, and `0` where it does not.
    fn wake(&self) -> (r: Result<usize, ()>) {
        Err(())
    }
}

/// The pointer-to-32-bit atomic cell the crate's primitives operate on.
///
/// The cell is exactly as wide as the window the kernel compares, so the
/// value the kernel checks is the whole cell, free bits included.
pub struct AtomicCell {
    pub(crate) value: AtomicU32,
}

/// Relies on `linux_futex::Futex::<Private>::wait`, a `FUTEX_WAIT` call with
/// the private flag and no timeout: the thread is put to sleep only while
/// the cell equals `expected`; the kernel reports a value mismatch as
/// `EAGAIN` and a signal as `EINTR`, and cannot report a timeout.  Any other
/// return means the thread was woken or the sleep ended spuriously.
#[verifier::external_body]
fn futex_wait_forever(word: &AtomicU32, expected: u32) -> (r: WakeupReason)
    ensures
        r == WakeupReason::NoMatch || r == WakeupReason::Interrupt || r
            == WakeupReason::Unknown,
{
    let f: &linux_futex::Futex<linux_futex::Private> = linux_futex::AsFutex::as_futex(word);
    match f.wait(expected) {
        Ok(()) => WakeupReason::Unknown,
        Err(linux_futex::WaitError::WrongValue) => WakeupReason::NoMatch,
        Err(linux_futex::WaitError::Interrupted) => WakeupReason::Interrupt,
    }
}

/// Relies on `linux_futex::Futex::<Private>::wait_for`, a `FUTEX_WAIT` call
/// with the private flag and a relative `timespec` timeout built from whole
/// seconds and a sub-second nanosecond part.  The bounds keep the seconds
/// within `time_t` and the nanoseconds below one billion, the range the
/// kernel accepts.  `ETIMEDOUT` maps to a timed-out report; a wake is not
/// distinguished from a spurious return.
#[verifier::external_body]
fn futex_wait_timed(word: &AtomicU32, expected: u32, secs: u64, nanos: u32) -> (r: WakeupReason)
    requires
        secs <= 0x7fff_ffff_ffff_ffff,
        nanos < 1_000_000_000,
    ensures
        r != WakeupReason::WokenUp,
{
    let f: &linux_futex::Futex<linux_futex::Private> = linux_futex::AsFutex::as_futex(word);
    match f.wait_for(expected, Duration::new(secs, nanos)) {
        Ok(()) => WakeupReason::Unknown,
        Err(linux_futex::TimedWaitError::WrongValue) => WakeupReason::NoMatch,
        Err(linux_futex::TimedWaitError::Interrupted) => WakeupReason::Interrupt,
        Err(linux_futex::TimedWaitError::TimedOut) => WakeupReason::TimedOut,
    }
}

/// Relies on `linux_futex::Futex::<Private>::wake`, a `FUTEX_WAKE` call with
/// the private flag: wakes up to `i32::MAX` threads sleeping on the cell and
/// returns the kernel's count of woken threads, which is never negative.
#[verifier::external_body]
fn futex_wake_all(word: &AtomicU32) -> (r: i32)
    ensures
        r >= 0,
{
    let f: &linux_futex::Futex<linux_futex::Private> = linux_futex::AsFutex::as_futex(word);
    f.wake(i32::MAX)
}

impl AtomicCell {
    /// A fresh cell holding `v`.  Before the cell's first wait, its
    /// reserved bits must be zero.
    pub fn new(v: u32) -> AtomicCell {
        AtomicCell { value: AtomicU32::new(v) }
    }

    /// The cell's current value, read relaxed.  Callers inspect it to tell
    /// their own state transitions apart; one who needs to observe another
    /// thread's writes performs an acquire of their own.
    pub fn load(&self) -> u32 {
        self.value.load(Ordering::Relaxed)
    }

    /// Store a value, relaxed.  The reserved bits must not be disturbed
    /// while threads may be waiting.
    pub fn store(&self, v: u32) {
        self.value.store(v, Ordering::Relaxed)
    }

    /// Compare-exchange, relaxed: the caller's way of moving its own state
    /// while leaving the reserved bits alone.  On failure the value found
    /// is returned.
    pub fn compare_exchange(&self, current: u32, new: u32) -> Result<u32, u32> {
        self.value.compare_exchange(current, new, Ordering::Relaxed, Ordering::Relaxed)
    }
}

impl Futex for AtomicCell {
    type Integer = u32;

    /// Sleep while the cell equals `expected`.  The call never fails; the
    /// kernel cannot say it woke this thread on purpose; and a timed-out
    /// report vouches that a timeout was supplied and was representable —
    /// one too large for the kernel's representation waits indefinitely
    /// instead and can never time out.
    fn wait(&self, expected: u32, timeout: Option<Duration>) -> (r: Result<WakeupReason, ()>)
        ensures
            r is Ok,
            !(r == Ok::<WakeupReason, ()>(WakeupReason::WokenUp)),
            r == Ok::<WakeupReason, ()>(WakeupReason::TimedOut) ==> (timeout matches Some(d)
                && secs_of(d) <= 0x7fff_ffff_ffff_ffff),
    {
        match timeout {
            None => Ok(futex_wait_forever(&self.value, expected)),
            Some(d) => {
                let secs = d.as_secs();
                let nanos = d.subsec_nanos();
                if fits_kernel_seconds(secs) {
                    Ok(futex_wait_timed(&self.value, expected, secs, nanos))
                } else {
                    Ok(futex_wait_forever(&self.value, expected))
                }
            },
        }
    }

    /// Wake all threads waiting on the cell and report the kernel's count.
    /// The call never fails.
    fn wake(&self) -> (r: Result<usize, ()>)
        ensures
            r is Ok,
    {
        let n = futex_wake_all(&self.value);
        Ok(n as usize)
    }
}

} // verus!
