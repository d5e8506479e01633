//! The broadcast state machine: many threads wait on one cell until a
//! single store releases them all.
//!
//! A waiter raises the has-waiters flag in the cell's reserved bits before
//! it sleeps; the waker's swap observes the flag and then owes the wake
//! syscall.  This order closes the lost-wakeup race: either the waker sees
//! the flag, or the waiter's compare-exchange sees the moved user state and
//! never sleeps.

use core::sync::atomic::Ordering;

use vstd::prelude::*;

use crate::futex::{AtomicCell, Futex};
use crate::protocol::{
    spec_free_bits, spec_registered, spec_wait_over, spec_wake_needed, HAS_WAITERS,
};
use crate::{RESERVED_MASK, RETRY_BUDGET};

verus! {

/// Whether a value is a legal `expected` argument: the reserved bits must
/// all be zero, or the wait is rejected outright.
pub fn reserved_bits_clear(expected: u32) -> (r: bool)
    ensures
        r == (expected & RESERVED_MASK == 0),
{
    expected & RESERVED_MASK == 0
}

/// The user-owned portion of a cell value.
pub fn free_bits(v: u32) -> (r: u32)
    ensures
        r == spec_free_bits(v),
{
    v & !RESERVED_MASK
}

/// The word a waiter installs before sleeping: `expected` with the
/// has-waiters flag raised.
pub fn registered(expected: u32) -> (r: u32)
    ensures
        r == spec_registered(expected),
{
    expected | HAS_WAITERS
}

/// Whether the value replaced by `store_and_wake` obliges a wake syscall.
pub fn needs_wake(old: u32) -> (r: bool)
    ensures
        r == spec_wake_needed(old),
{
    old & HAS_WAITERS != 0
}

/// Whether a woken waiter is done: the cell no longer holds the registered
/// pattern, so the user state has moved on.
pub fn wait_over(observed: u32, expected: u32) -> (r: bool)
    ensures
        r == spec_wait_over(observed, expected),
{
    observed != (expected | HAS_WAITERS)
}

/// Multiple threads wait on a single [`AtomicCell`] until one thread wakes
/// them all at once.
///
/// The cell may be used for other purposes while no thread can be waiting
/// on it, but between a first `compare_and_wait` and the `store_and_wake`
/// that answers it, all but the five high-order bits are reserved: they
/// must be zero before the first wait, and must not be changed except by
/// `store_and_wake` itself.
pub trait Waiters {
    /// Make the current thread wait until it receives a wake signal.
    ///
    /// `expected` decides whether the thread parks at all: if the cell's
    /// free bits no longer equal it, the state has already moved and the
    /// call returns at once.  It also detects spurious wakeups, after which
    /// the thread parks again.  Its reserved bits must be zero: a value
    /// with reserved bits set is a contract violation and is rejected
    /// without reading or touching the cell.
    ///
    /// The atomic comparisons involved are relaxed; a caller that wants to
    /// read data written by the waking thread performs its own acquire
    /// afterwards.
    fn compare_and_wait(&self, expected: u32);

    /// Store `new` over the whole cell and wake all waiting threads.
    ///
    /// `new` must not be matched by the `expected` of the waits it answers,
    /// and its reserved bits must be consistent with the no-waiters state
    /// (typically zero).  The store is a release; woken threads that do an
    /// acquire afterwards observe all prior writes of this thread.
    fn store_and_wake(&self, new: u32);
}

impl Waiters for AtomicCell {
    fn compare_and_wait(&self, expected: u32) {
        if !reserved_bits_clear(expected) {
            // The argument's reserved bits are never interpreted as user
            // state: a malformed wait is rejected before the cell is read.
            return ;
        }
        match self.value.compare_exchange(
            expected,
            registered(expected),
            Ordering::Relaxed,
            Ordering::Relaxed,
        ) {
            Ok(_) => {},
            Err(current) => {
                // Another thread moved the user state: nothing to wait for.
                // Otherwise the flag is already up on our expected state and
                // this thread joins the sleepers.
                if free_bits(current) != expected {
                    return ;
                }
            },
        }
        // The retry budget only bounds the loop formally; a run of spurious
        // wakeups could not exhaust it within the life of the machine.
        let mut budget: u64 = RETRY_BUDGET;
        while budget > 0
            decreases budget,
        {
            let _ = self.wait(registered(expected), None);
            let now = self.value.load(Ordering::Relaxed);
            if wait_over(now, expected) {
                return ;
            }
            budget = budget - 1;
        }
    }

    fn store_and_wake(&self, new: u32) {
        let old = self.value.swap(new, Ordering::Release);
        if needs_wake(old) {
            let _ = self.wake();
        }
    }
}

} // verus!
