//! Bookkeeping for the keyed-event fallback.
//!
//! NT keyed events differ from a futex in two ways: the wait does not
//! compare a value before sleeping, and the release call itself blocks
//! until a thread is waiting on the key, so the waking side must issue
//! exactly one release per sleeper.  The broadcast machine therefore keeps
//! a count of sleepers in the low reserved bits of the cell: a sleeper
//! increments it while checking that the rest of the cell still matches,
//! and the waker swaps the cell out and releases exactly the counted number
//! of sleepers.  The counter's capacity is far beyond any possible number
//! of threads; the saturation bound below only keeps the arithmetic exact.
//!
//! One race is inherent to the primitive and must be lived with: a sleeper
//! that left spuriously just before its release arrives leaves the
//! releaser blocked on a sleeper that no longer exists.  The platform
//! layer mitigates by re-checking the cell after every wakeup and by
//! bounding each release with a short timeout.  The single-waiter parker
//! needs none of this bookkeeping: with at most one sleeper, one release
//! is always the correct count.

use vstd::prelude::*;

use crate::futex::WakeupReason;
use crate::RESERVED_MASK;

verus! {

/// The two reserved bits just below the free bits that hold parker state
/// when both machines share one cell.
pub const STATE_MASK: u32 = 0x0600_0000;

/// The reserved bits that hold the sleeper count: everything reserved that
/// is not parker state.
pub const COUNTER_MASK: u32 = 0x01ff_ffff;

/// The state bits sit inside the reserved region, and the counter occupies
/// exactly the reserved bits outside them.
pub proof fn lemma_counter_mask_shape()
    ensures
        STATE_MASK & !RESERVED_MASK == 0,
        COUNTER_MASK == RESERVED_MASK & !STATE_MASK,
        COUNTER_MASK & STATE_MASK == 0,
{
    assert(0x0600_0000u32 & !0x07ff_ffffu32 == 0u32) by (bit_vector);
    assert(0x01ff_ffffu32 == 0x07ff_ffffu32 & !0x0600_0000u32) by (bit_vector);
    assert(0x01ff_ffffu32 & 0x0600_0000u32 == 0u32) by (bit_vector);
}

/// A sleeper announcing itself before the keyed-event wait: if the cell,
/// counter aside, still holds `compare`, the sleeper count goes up by one
/// and nothing else moves; otherwise the user state has moved on and the
/// thread does not sleep.
pub fn keyed_register(current: u32, compare: u32) -> (r: Option<u32>)
    requires
        current & COUNTER_MASK < COUNTER_MASK,
    ensures
        r is Some <==> (current & !COUNTER_MASK) == compare,
        r matches Some(n) ==> n == current + 1,
        r matches Some(n) ==> n & !COUNTER_MASK == current & !COUNTER_MASK,
        r matches Some(n) ==> n & COUNTER_MASK == (current & COUNTER_MASK) + 1,
{
    if current & !COUNTER_MASK != compare {
        None
    } else {
        proof {
            assert(current + 1 <= u32::MAX && ((current + 1) as u32) & !0x01ff_ffffu32 == current
                & !0x01ff_ffffu32 && ((current + 1) as u32) & 0x01ff_ffffu32 == (current
                & 0x01ff_ffffu32) + 1) by (bit_vector)
                requires
                    current & 0x01ff_ffffu32 < 0x01ff_ffffu32,
            ;
        }
        Some(current + 1)
    }
}

/// The number of release calls the waking side owes after swapping the cell
/// out: one per counted sleeper.  Issuing more would leave the waker
/// blocked on a release with no thread to receive it.
pub fn keyed_wake_count(old: u32) -> (r: u32)
    ensures
        r == old & COUNTER_MASK,
{
    old & COUNTER_MASK
}

/// Registering and then waking accounts for every sleeper exactly once: the
/// wake count of a freshly registered cell is one more than before.
pub proof fn lemma_keyed_count_balanced(current: u32)
    requires
        current & COUNTER_MASK < COUNTER_MASK,
    ensures
        current + 1 <= u32::MAX,
        ((current + 1) as u32) & COUNTER_MASK == (current & COUNTER_MASK) + 1,
{
    assert(current + 1 <= u32::MAX && ((current + 1) as u32) & 0x01ff_ffffu32 == (current
        & 0x01ff_ffffu32) + 1) by (bit_vector)
        requires
            current & 0x01ff_ffffu32 < 0x01ff_ffffu32,
    ;
}

/// The status word of a keyed-event wait, reclassified.  The status values
/// are the NT kernel's: success, a timeout, and the two alert forms.  An
/// unrecognized status is treated as a possibly spurious wake, and a
/// timeout status can only be honoured when a timeout was supplied.
pub fn keyed_wakeup_reason(status: i32, had_timeout: bool) -> (r: WakeupReason)
    ensures
        r == spec_keyed_wakeup_reason(status, had_timeout),
        !had_timeout ==> r != WakeupReason::TimedOut,
{
    if status == 0 {
        WakeupReason::Unknown
    } else if status == 0x102 && had_timeout {
        WakeupReason::TimedOut
    } else if status == 0x101 || status == 0xC0 {
        WakeupReason::Interrupt
    } else {
        WakeupReason::Unknown
    }
}

/// The reclassification of a keyed-event status word, as a function.
pub open spec fn spec_keyed_wakeup_reason(status: i32, had_timeout: bool) -> WakeupReason {
    if status == 0 {
        WakeupReason::Unknown
    } else if status == 0x102 && had_timeout {
        WakeupReason::TimedOut
    } else if status == 0x101 || status == 0xC0 {
        WakeupReason::Interrupt
    } else {
        WakeupReason::Unknown
    }
}

} // verus!
