//! Thread-parking primitives over a single shared atomic word.
//!
//! The crate packs its own bookkeeping into the low-order *reserved* bits of
//! a 32-bit atomic cell, leaving the five high-order *free* bits to the user.
//! Two capabilities are offered on such a cell:
//!
//! - [`Waiters`]: any number of threads block on the cell until another
//!   thread stores a fresh value and wakes them all at once.
//! - [`Parker`]: a single thread blocks (optionally with a timeout) until
//!   another thread signals it.
//!
//! Blocking goes through the operating system's futex on a 32-bit word; the
//! cell is exactly as wide as the kernel's compare window, so the value the
//! kernel checks is the whole cell.

use vstd::prelude::*;

pub mod fallback;
pub mod futex;
pub mod keyed;
pub mod park;
pub mod probe;
pub mod protocol;
pub mod release;
pub mod timeout;
pub mod waiters;

pub use futex::{AtomicCell, Futex, WakeupReason};
pub use park::{ParkResult, Parker};
pub use waiters::Waiters;

verus! {

/// Number of high-order bits which are never touched by this crate and are
/// free for the user's own state.
pub const FREE_BITS: u32 = 5;

/// Number of low-order bits which are reserved for the crate's bookkeeping
/// while a wait or park is in flight.
pub const RESERVED_BITS: u32 = 32 - FREE_BITS;

/// Mask matching the reserved low-order bits.
pub const RESERVED_MASK: u32 = 0x07ff_ffff;

/// Formal bound on the re-park loops.  A waiting loop sleeps in the kernel
/// once per round, so this many rounds of purely spurious wakeups cannot
/// happen within the life of a machine; the bound only gives the loops a
/// termination measure.
pub const RETRY_BUDGET: u64 = 0xffff_ffff_ffff_ffff;

/// The mask really does cover exactly the `RESERVED_BITS` low-order bits.
pub proof fn lemma_reserved_mask_shape()
    ensures
        RESERVED_MASK + 1 == 1u32 << RESERVED_BITS,
{
    assert(1u32 << 27u32 == 0x0800_0000u32) by (bit_vector);
}

} // verus!
