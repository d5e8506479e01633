//! The values and transitions of the two state machines.
//!
//! Both capabilities keep their bookkeeping in the reserved bits of a cell:
//! the broadcast side raises a single has-waiters flag before sleeping, and
//! the parker side drives a three-state word.  The spec functions here are
//! the authoritative description of those transitions; the executable code
//! consults them through small decision functions, and the proof functions
//! state the guarantees the two machines provide.

use vstd::prelude::*;

use crate::RESERVED_MASK;

verus! {

/// Parker word: no thread is parked and no notification is pending.
pub const NOT_PARKED: u32 = 0;

/// Parker word: a thread is parked, or about to be.
pub const PARKED: u32 = 1;

/// Parker word: a notification is pending; the next (or current) park
/// consumes it and returns.
pub const NOTIFIED: u32 = 2;

/// Reserved bit raised by a waiter before it sleeps, so that a waker knows
/// the wake syscall is owed.
pub const HAS_WAITERS: u32 = 1;

/// The three legal encodings of the parker word; a fourth never appears.
pub open spec fn parker_word_valid(w: u32) -> bool {
    w == NOT_PARKED || w == PARKED || w == NOTIFIED
}

/// The user-owned portion of a waiters cell.
pub open spec fn spec_free_bits(v: u32) -> u32 {
    v & !RESERVED_MASK
}

/// The word a waiter installs before sleeping: the expected user state with
/// the has-waiters flag raised.
pub open spec fn spec_registered(expected: u32) -> u32 {
    expected | HAS_WAITERS
}

/// `store_and_wake` owes the wake syscall exactly when the value it replaced
/// had the has-waiters flag set.
pub open spec fn spec_wake_needed(old: u32) -> bool {
    old & HAS_WAITERS != 0
}

/// Effect of `store_and_wake` on a cell holding `old`: the new cell value,
/// and whether the wake syscall is issued.
pub open spec fn spec_store_and_wake(old: u32, new: u32) -> (u32, bool) {
    (new, spec_wake_needed(old))
}

/// A waiter's recheck after a wakeup: the wait is over exactly when the cell
/// no longer holds the registered pattern.
pub open spec fn spec_wait_over(observed: u32, expected: u32) -> bool {
    observed != spec_registered(expected)
}

/// Effect of `unpark` on the parker word: it becomes `NOTIFIED` whatever it
/// held before.
pub open spec fn spec_unpark_word(w: u32) -> u32 {
    NOTIFIED
}

/// `unpark` issues the wake syscall exactly when a thread was parked.
pub open spec fn spec_unpark_wakes(w: u32) -> bool {
    w == PARKED
}

/// What `park` does when its opening compare-exchange fails on `observed`.
#[derive(Clone, Copy, PartialEq, Eq, Structural, Debug)]
pub enum ParkEntry {
    /// A notification was already pending: consume it and return at once.
    ConsumeNotification,
    /// Another thread is parked here; a second park is a contract violation.
    Occupied,
}

/// Entry decision of `park`, as a function of the word that made its opening
/// compare-exchange fail.
pub open spec fn spec_park_entry(observed: u32) -> ParkEntry {
    if observed == NOTIFIED {
        ParkEntry::ConsumeNotification
    } else {
        ParkEntry::Occupied
    }
}

/// One round of `park`'s waiting loop, given the word it observes after the
/// kernel call and whether a timeout was supplied: the word it writes if it
/// returns, and whether it returns.
pub open spec fn spec_park_step(observed: u32, timed: bool) -> (u32, bool) {
    if timed {
        (NOT_PARKED, true)
    } else if observed == NOTIFIED {
        (NOT_PARKED, true)
    } else {
        (observed, false)
    }
}

/// An event that can land on the parker word while one thread sits in
/// park's waiting loop.
#[derive(Clone, Copy, PartialEq, Eq, Structural, Debug)]
pub enum ParkerEvent {
    /// A peer's unpark: the word becomes `NOTIFIED`.
    Unpark,
    /// The kernel ends a sleep with nothing changed.
    SpuriousWake,
}

/// The parker word after a sequence of events lands on a word holding `w`.
pub open spec fn spec_word_after_events(w: u32, evts: Seq<ParkerEvent>) -> u32
    decreases evts.len(),
{
    if evts.len() == 0 {
        w
    } else {
        let prev = spec_word_after_events(w, evts.drop_last());
        match evts.last() {
            ParkerEvent::Unpark => spec_unpark_word(prev),
            ParkerEvent::SpuriousWake => prev,
        }
    }
}

/// A pending notification survives everything but the park that consumes
/// it: no sequence of further unparks and spurious wakeups moves the word
/// off `NOTIFIED`.
pub proof fn lemma_notification_is_stable(evts: Seq<ParkerEvent>)
    ensures
        spec_word_after_events(NOTIFIED, evts) == NOTIFIED,
    decreases evts.len(),
{
    if evts.len() > 0 {
        lemma_notification_is_stable(evts.drop_last());
    }
}

/// Broadcast release (law): once a waiter has registered itself on user
/// state `expected`, a `store_and_wake` whose free bits differ must issue
/// the wake syscall, leaves the cell at exactly the stored value, and the
/// waiter's next recheck ends its wait.  The registration-before-sleep order
/// is what closes the lost-wakeup race.
pub proof fn lemma_broadcast_releases_waiter(expected: u32, new: u32)
    requires
        expected & RESERVED_MASK == 0,
        spec_free_bits(new) != expected,
    ensures
        spec_wake_needed(spec_registered(expected)),
        spec_store_and_wake(spec_registered(expected), new).0 == new,
        spec_wait_over(new, expected),
{
    assert((expected | 1u32) & 1u32 != 0u32) by (bit_vector);
    assert((expected | 1u32) & !0x07ff_ffffu32 == expected) by (bit_vector)
        requires
            expected & 0x07ff_ffffu32 == 0u32,
    ;
    if new == spec_registered(expected) {
        assert(spec_free_bits(new) == expected);
    }
}

/// An event that can land on a waiters cell while threads sit in the
/// broadcast waiting loop.
#[derive(Clone, Copy, PartialEq, Eq, Structural, Debug)]
pub enum WaiterEvent {
    /// A peer's `store_and_wake`: the cell becomes the stored value.
    Store(u32),
    /// The kernel ends a sleep with nothing changed.
    SpuriousWake,
}

/// The cell value after a sequence of events lands on a cell holding `c`.
pub open spec fn spec_cell_after_events(c: u32, evts: Seq<WaiterEvent>) -> u32
    decreases evts.len(),
{
    if evts.len() == 0 {
        c
    } else {
        let prev = spec_cell_after_events(c, evts.drop_last());
        match evts.last() {
            WaiterEvent::Store(v) => v,
            WaiterEvent::SpuriousWake => prev,
        }
    }
}

/// Whether an event honours the cell's contract: a store leaves the
/// reserved bits zero, the no-waiters state.
pub open spec fn spec_event_is_clean(e: WaiterEvent) -> bool {
    match e {
        WaiterEvent::Store(v) => v & RESERVED_MASK == 0,
        WaiterEvent::SpuriousWake => true,
    }
}

/// Whether every event of a sequence honours the cell's contract.
pub open spec fn spec_events_are_clean(evts: Seq<WaiterEvent>) -> bool {
    forall|j: int| 0 <= j < evts.len() ==> spec_event_is_clean(#[trigger] evts[j])
}

/// Broadcast liveness (law): however a registered waiter interleaves with
/// spurious wakeups and with stores that honour the reserved bits, once at
/// least one store has landed the cell can never again hold the registered
/// pattern — a clean store has the has-waiters flag down — so the waiter's
/// next recheck ends its wait.
pub proof fn lemma_broadcast_trace_releases_waiter(
    expected: u32,
    evts: Seq<WaiterEvent>,
    i: int,
)
    requires
        expected & RESERVED_MASK == 0,
        spec_events_are_clean(evts),
        0 <= i < evts.len(),
        evts[i] is Store,
    ensures
        spec_wait_over(spec_cell_after_events(spec_registered(expected), evts), expected),
    decreases evts.len(),
{
    match evts.last() {
        WaiterEvent::Store(v) => {
            assert(spec_event_is_clean(evts[evts.len() - 1]));
            assert(v != (expected | 1u32)) by (bit_vector)
                requires
                    v & 0x07ff_ffffu32 == 0u32,
                    expected & 0x07ff_ffffu32 == 0u32,
            ;
        },
        WaiterEvent::SpuriousWake => {
            assert(evts.drop_last()[i] == evts[i]);
            assert(spec_events_are_clean(evts.drop_last()));
            lemma_broadcast_trace_releases_waiter(expected, evts.drop_last(), i);
        },
    }
}

/// Exact effect of `store_and_wake` (law): the cell holds bitwise the stored
/// value afterwards, whatever it held before.
pub proof fn lemma_store_and_wake_exact(old: u32, new: u32)
    ensures
        spec_store_and_wake(old, new).0 == new,
{
}

/// Quiet store (law): replacing a cell whose has-waiters flag is clear never
/// issues the wake syscall.
pub proof fn lemma_store_without_waiters_no_syscall(old: u32, new: u32)
    requires
        old & HAS_WAITERS == 0,
    ensures
        !spec_store_and_wake(old, new).1,
{
}

/// Park liveness (law): however one park interleaves with any number of
/// unparks and spurious wakeups, once at least one unpark has landed the
/// word reads `NOTIFIED` — nothing but park itself can move it off that —
/// and the next round of park's loop consumes it, returns, and leaves the
/// word at `NOT_PARKED`.
pub proof fn lemma_park_returns_after_unpark(w: u32, evts: Seq<ParkerEvent>, i: int)
    requires
        0 <= i < evts.len(),
        evts[i] == ParkerEvent::Unpark,
    ensures
        spec_word_after_events(w, evts) == NOTIFIED,
        spec_park_step(spec_word_after_events(w, evts), false).1,
        spec_park_step(spec_word_after_events(w, evts), false).0 == NOT_PARKED,
    decreases evts.len(),
{
    if i == evts.len() - 1 {
    } else {
        lemma_park_returns_after_unpark(w, evts.drop_last(), i);
    }
}

/// Park reset (law): whenever a round of park's loop decides to return, the
/// word it writes back is `NOT_PARKED`; the same holds for the notification
/// consumed at entry.  A thread that has returned from park leaves no parker
/// state behind.
pub proof fn lemma_park_resets_state(observed: u32, timed: bool)
    ensures
        spec_park_step(observed, timed).1 ==> spec_park_step(observed, timed).0 == NOT_PARKED,
{
}

/// Unpark idempotence (law): a second unpark with no park in between leaves
/// the word at `NOTIFIED`, owes no wake syscall, and the next park consumes
/// the single pending notification at entry.
pub proof fn lemma_unpark_idempotent(w: u32)
    ensures
        spec_unpark_word(spec_unpark_word(w)) == NOTIFIED,
        !spec_unpark_wakes(spec_unpark_word(w)),
        spec_park_entry(spec_unpark_word(spec_unpark_word(w))) == ParkEntry::ConsumeNotification,
{
}

/// Unpark before park (law): an unpark that lands on an idle word leaves a
/// pending notification, and the park that follows consumes it at entry and
/// returns at once, leaving the word at `NOT_PARKED`.
pub proof fn lemma_unpark_before_park(w: u32)
    ensures
        spec_park_entry(spec_unpark_word(w)) == ParkEntry::ConsumeNotification,
        spec_park_step(spec_unpark_word(w), false).0 == NOT_PARKED,
{
}

/// A second park on an occupied word (law): the entry decision on a word
/// already holding `PARKED` is a rejection, never a wait.
pub proof fn lemma_second_park_rejected()
    ensures
        spec_park_entry(PARKED) == ParkEntry::Occupied,
{
}

/// Closed state space (law): every word the parker machine writes — the
/// claim at entry, the notification, and each exit write — is one of the
/// three legal encodings, so the fourth encoding never appears on a cell
/// driven by this machine alone.
pub proof fn lemma_parker_states_closed(w: u32, observed: u32, timed: bool)
    ensures
        parker_word_valid(NOT_PARKED),
        parker_word_valid(PARKED),
        parker_word_valid(spec_unpark_word(w)),
        spec_park_step(observed, timed).1 ==> parker_word_valid(
            spec_park_step(observed, timed).0,
        ),
{
}

/// Spurious-wake resilience (law): a wakeup that finds the cell unchanged
/// ends neither a broadcast wait (the registered pattern still stands) nor
/// an untimed park (the word still reads `PARKED`); both loops go back to
/// sleep.
pub proof fn lemma_spurious_wake_reparks(expected: u32)
    requires
        expected & RESERVED_MASK == 0,
    ensures
        !spec_wait_over(spec_registered(expected), expected),
        !spec_park_step(PARKED, false).1,
{
}

} // verus!
