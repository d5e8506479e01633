//! The single-waiter state machine: one thread parks on a cell, and other
//! threads (or a timeout) wake it.
//!
//! The parker word is a three-state automaton — `NOT_PARKED`, `PARKED`,
//! `NOTIFIED` — driven by compare-exchanges.  Unpark swaps in `NOTIFIED`
//! and wakes the sleeper if there was one; the woken thread, not the waker,
//! clears the state on its way out.

use core::sync::atomic::Ordering;
use core::time::Duration;

use vstd::prelude::*;

use crate::futex::{AtomicCell, Futex};
use crate::protocol::{spec_park_entry, spec_unpark_wakes, ParkEntry, NOTIFIED, NOT_PARKED, PARKED};
use crate::timeout::{secs_of, subsec_nanos_of};
use crate::RETRY_BUDGET;

verus! {

/// How a call to [`Parker::park`] ended.
#[derive(Clone, Copy, PartialEq, Eq, Structural, Debug)]
pub enum ParkResult {
    /// The thread parked and was released: by an unpark, by the expiry of
    /// its timeout, or — when a timeout was supplied — possibly spuriously.
    /// A pending notification consumed at entry also ends here.
    Completed,
    /// Rejected: the supplied timeout was zero, which no platform supports
    /// coherently.
    ZeroTimeout,
    /// Rejected: another thread is already parked on this cell; at most one
    /// thread may park on a cell at a time.
    AlreadyParked,
}

/// Entry decision of `park` when its opening compare-exchange fails on a
/// word holding `observed`.
pub fn park_entry(observed: u32) -> (r: ParkEntry)
    ensures
        r == spec_park_entry(observed),
{
    if observed == NOTIFIED {
        ParkEntry::ConsumeNotification
    } else {
        ParkEntry::Occupied
    }
}

/// Whether the word `unpark` replaced obliges a wake syscall: only a parked
/// thread needs waking.
pub fn unpark_should_wake(old: u32) -> (r: bool)
    ensures
        r == spec_unpark_wakes(old),
{
    old == PARKED
}

/// One thread parks itself on a private cell; other threads, or a timeout,
/// wake it up.
pub struct Parker {
    cell: AtomicCell,
}

impl Parker {
    /// A fresh parker with no thread parked and no notification pending.
    pub fn new() -> Parker {
        Parker { cell: AtomicCell::new(NOT_PARKED) }
    }

    /// Park the current thread.
    ///
    /// Only one thread can park on `self` at a time; a second concurrent
    /// park is rejected with [`ParkResult::AlreadyParked`].
    ///
    /// With no `timeout`, the call returns only after another thread calls
    /// [`unpark`](Parker::unpark); spurious wakeups and interrupts park the
    /// thread again.  With a `timeout`, the call can also return on expiry
    /// or spuriously.  A zero timeout is rejected; timeouts are rounded up
    /// to the platform's granularity; one too large for the kernel's
    /// representation means waiting as if no timeout was supplied.
    ///
    /// The word is claimed with a release store before the thread sleeps,
    /// so preparations made before the call are complete when it parks.
    pub fn park(&self, timeout: Option<Duration>) -> (r: ParkResult)
        ensures
            r == ParkResult::ZeroTimeout <==> (timeout matches Some(d) && secs_of(d) == 0
                && subsec_nanos_of(d) == 0),
    {
        let timed: bool = match &timeout {
            None => false,
            Some(d) => {
                if d.as_secs() == 0 && d.subsec_nanos() == 0 {
                    return ParkResult::ZeroTimeout;
                }
                true
            },
        };
        match self.cell.value.compare_exchange(
            NOT_PARKED,
            PARKED,
            Ordering::Release,
            Ordering::Relaxed,
        ) {
            Ok(_) => {},
            Err(current) => {
                match park_entry(current) {
                    ParkEntry::ConsumeNotification => {
                        // Some thread unparked us before we parked: consume
                        // the notification and return at once.
                        self.cell.value.store(NOT_PARKED, Ordering::Relaxed);
                        return ParkResult::Completed;
                    },
                    ParkEntry::Occupied => {
                        return ParkResult::AlreadyParked;
                    },
                }
            },
        }
        // The retry budget only bounds the loop formally; a run of spurious
        // wakeups could not exhaust it within the life of the machine.
        let mut budget: u64 = RETRY_BUDGET;
        while budget > 0
            invariant
                timeout matches Some(d) ==> (secs_of(d) != 0 || subsec_nanos_of(d) != 0),
            decreases budget,
        {
            let _ = self.cell.wait(PARKED, timeout);
            if timed {
                // With a timeout supplied the return may be spurious; the
                // exit write is the same either way.
                self.cell.value.store(NOT_PARKED, Ordering::Relaxed);
                return ParkResult::Completed;
            }
            if self.cell.value.compare_exchange(
                NOTIFIED,
                NOT_PARKED,
                Ordering::Relaxed,
                Ordering::Relaxed,
            ).is_ok() {
                return ParkResult::Completed;
            }
            // The wake was spurious: the notification has not arrived, so
            // go back to sleep.
            budget = budget - 1;
        }
        self.cell.value.store(NOT_PARKED, Ordering::Relaxed);
        ParkResult::Completed
    }

    /// Unpark the waiting thread, if there is one.
    ///
    /// The word becomes `NOTIFIED` whatever it held; the wake syscall is
    /// issued only when a thread was parked.  Unparking is idempotent: with
    /// a notification already pending, the call changes nothing.  The swap
    /// is a release, so the unparked thread's subsequent acquire observes
    /// all prior writes of this thread.
    pub fn unpark(&self) {
        let old = self.cell.value.swap(NOTIFIED, Ordering::Release);
        if unpark_should_wake(old) {
            let _ = self.cell.wake();
        }
    }
}

} // verus!
