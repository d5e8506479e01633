//! Decisions of the stack-record fallback.
//!
//! Where no futex-style primitive exists, a waiting thread blocks on a
//! mutex-and-condvar pair (or a thread descriptor) that lives on its own
//! stack, and publishes that record through the cell: the record's address,
//! shifted down by the free bits, occupies the reserved pointer bits, and
//! the lowest reserved bit says that a waker has committed to signalling.
//! The unparker reads the pointer back out and signals under the record's
//! mutex, so the record outlives every access: the waiter does not leave
//! until the notify bit is up, and a waker that set the bit is awaited even
//! when the waiter had already decided to leave on a timeout.
//!
//! The functions here take the decisions of that protocol; the blocking
//! calls around them belong to the platform layer.

use vstd::prelude::*;

use crate::{FREE_BITS, RESERVED_MASK};

verus! {

/// Reserved bit raised by a waker that has committed to signalling the
/// waiter.
pub const NOTIFY_BIT: u32 = 1;

/// Reserved bits that hold the waiter record's shifted address.
pub const PTR_BITS: u32 = 0x07ff_fffe;

/// The pointer bits are exactly the reserved bits above the notify bit.
pub proof fn lemma_ptr_bits_shape()
    ensures
        PTR_BITS == RESERVED_MASK ^ NOTIFY_BIT,
        PTR_BITS & NOTIFY_BIT == 0,
{
    assert(0x07ff_fffeu32 == 0x07ff_ffffu32 ^ 1u32) by (bit_vector);
    assert(0x07ff_fffeu32 & 1u32 == 0u32) by (bit_vector);
}

/// What the unparker does after raising the notify bit, given the value the
/// cell held before.
#[derive(Clone, Copy, PartialEq, Eq, Structural, Debug)]
pub enum UnparkAction {
    /// The notify bit was already up: another waker is signalling, nothing
    /// to do.
    AlreadyNotified,
    /// No record is published: the thread has not parked (or already left),
    /// nothing to do.
    NoWaiter,
    /// A record is published and no waker has claimed it: signal the record
    /// these pointer bits name.
    Signal(u32),
}

/// The unparker's decision table over the previous cell value.
pub fn unpark_action(old: u32) -> (r: UnparkAction)
    ensures
        old & NOTIFY_BIT != 0 ==> r == UnparkAction::AlreadyNotified,
        old & NOTIFY_BIT == 0 && old & PTR_BITS == 0 ==> r == UnparkAction::NoWaiter,
        old & NOTIFY_BIT == 0 && old & PTR_BITS != 0 ==> r == (UnparkAction::Signal(
            old & PTR_BITS,
        )),
{
    if old & NOTIFY_BIT != 0 {
        UnparkAction::AlreadyNotified
    } else if old & PTR_BITS == 0 {
        UnparkAction::NoWaiter
    } else {
        UnparkAction::Signal(old & PTR_BITS)
    }
}

/// What a thread about to park does, given the cell value it observes while
/// trying to publish its record.
#[derive(Clone, Copy, PartialEq, Eq, Structural, Debug)]
pub enum EnqueueDecision {
    /// A notification already arrived: do not park at all.
    AlreadyNotified,
    /// Publish the record: install this cell value, which carries the
    /// caller's free bits unchanged.
    Install(u32),
}

/// The enqueue decision of a parking thread whose record encodes to
/// `ptr_bits`.
pub fn park_enqueue(current: u32, ptr_bits: u32) -> (r: EnqueueDecision)
    requires
        ptr_bits & !PTR_BITS == 0,
    ensures
        current & RESERVED_MASK == NOTIFY_BIT ==> r == EnqueueDecision::AlreadyNotified,
        current & RESERVED_MASK != NOTIFY_BIT ==> r == (EnqueueDecision::Install(
            current | ptr_bits,
        )),
        r matches EnqueueDecision::Install(v) ==> v & !RESERVED_MASK == current & !RESERVED_MASK,
{
    proof {
        assert((current | ptr_bits) & !0x07ff_ffffu32 == current & !0x07ff_ffffu32) by (bit_vector)
            requires
                ptr_bits & !0x07ff_fffeu32 == 0u32,
        ;
    }
    if current & RESERVED_MASK == NOTIFY_BIT {
        EnqueueDecision::AlreadyNotified
    } else {
        EnqueueDecision::Install(current | ptr_bits)
    }
}

/// A woken waiter's recheck: the wake is genuine exactly when the pointer
/// is gone and the notify bit is up; anything else is spurious and the
/// thread waits again.
pub fn wakeup_is_genuine(current: u32) -> (r: bool)
    ensures
        r == (current & RESERVED_MASK == NOTIFY_BIT),
{
    current & RESERVED_MASK == NOTIFY_BIT
}

/// What a timed waiter does on waking, given the cell value it observes.
#[derive(Clone, Copy, PartialEq, Eq, Structural, Debug)]
pub enum TimedWakeStep {
    /// No waker has committed: try to install this value, which withdraws
    /// the record and clears all reserved bits.
    Withdraw(u32),
    /// A waker has committed to signalling: it may already hold the
    /// record's mutex, so it must be awaited before the record is freed,
    /// even though the timeout has expired.
    AwaitWaker,
}

/// The timed waiter's decision table over the observed cell value.
pub fn timed_wake_step(current: u32) -> (r: TimedWakeStep)
    ensures
        current & NOTIFY_BIT != 0 ==> r == TimedWakeStep::AwaitWaker,
        current & NOTIFY_BIT == 0 ==> r == (TimedWakeStep::Withdraw(current & !RESERVED_MASK)),
        r matches TimedWakeStep::Withdraw(v) ==> v & RESERVED_MASK == 0,
{
    proof {
        assert((current & !0x07ff_ffffu32) & 0x07ff_ffffu32 == 0u32) by (bit_vector);
    }
    if current & NOTIFY_BIT != 0 {
        TimedWakeStep::AwaitWaker
    } else {
        TimedWakeStep::Withdraw(current & !RESERVED_MASK)
    }
}

/// A record's address, shifted down past the free bits for publication in
/// the cell.  The record is aligned so that the shifted address neither
/// touches the notify bit nor leaves the reserved region.
pub fn encode_waiter(addr: u32) -> (r: u32)
    requires
        addr % 64 == 0,
    ensures
        r == addr >> FREE_BITS,
        r & !PTR_BITS == 0,
{
    proof {
        assert((addr >> 5u32) & !0x07ff_fffeu32 == 0u32) by (bit_vector)
            requires
                addr % 64 == 0,
        ;
    }
    addr >> FREE_BITS
}

/// The record's address, reconstructed from its published pointer bits.
pub fn decode_waiter(bits: u32) -> (r: u32)
    ensures
        r == bits << FREE_BITS,
{
    bits << FREE_BITS
}

/// Publication is lossless (law): a record aligned as required is recovered
/// exactly by the unparker's decode of what the waiter encoded.
pub proof fn lemma_waiter_pointer_roundtrip(addr: u32)
    requires
        addr % 64 == 0,
    ensures
        (addr >> FREE_BITS) << FREE_BITS == addr,
{
    assert((addr >> 5u32) << 5u32 == addr) by (bit_vector)
        requires
            addr % 64 == 0,
    ;
}

} // verus!
