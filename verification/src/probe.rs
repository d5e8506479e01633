//! The backend probe's initialize-once protocol.
//!
//! Where the wait primitive must be resolved at run time, a process-wide
//! status word gates the probe: the first thread to claim the word runs
//! the resolution and publishes the result with a release store of
//! `READY`; latecomers spin until they read `READY` with acquire and then
//! use the cached backend.  The resolution itself — loading libraries and
//! function addresses — is the platform layer's business; this module
//! takes the decisions around the status word.

use vstd::prelude::*;

verus! {

/// The backend is resolved and cached; readers may use it.
pub const READY: u32 = 0;

/// Some thread is resolving the backend; others spin.
pub const INITIALIZING: u32 = 1;

/// Nobody has claimed the probe yet.
pub const EMPTY: u32 = 2;

/// What a thread does after observing the status word.
#[derive(Clone, Copy, PartialEq, Eq, Structural, Debug)]
pub enum ProbeStep {
    /// The cache is published: read it.
    UseCached,
    /// The word was claimed by this thread's compare-exchange: resolve the
    /// backend, publish it, store `READY`.
    Resolve,
    /// Another thread is resolving: spin and look again.
    Spin,
}

/// The probe's decision table.  Claiming is done with a compare-exchange
/// from `EMPTY`, so exactly one thread resolves; every other observation
/// either uses the cache or spins.
pub open spec fn spec_probe_step(observed: u32) -> ProbeStep {
    if observed == READY {
        ProbeStep::UseCached
    } else if observed == EMPTY {
        ProbeStep::Resolve
    } else {
        ProbeStep::Spin
    }
}

/// The decision a thread takes on an observed status word.
pub fn probe_step(observed: u32) -> (r: ProbeStep)
    ensures
        r == spec_probe_step(observed),
{
    if observed == READY {
        ProbeStep::UseCached
    } else if observed == EMPTY {
        ProbeStep::Resolve
    } else {
        ProbeStep::Spin
    }
}

/// Single resolution (law): only the untouched word admits a resolve, and
/// the claim immediately moves the word off `EMPTY`, so a second observer
/// can only spin or use the cache — the probe runs at most once.
pub proof fn lemma_probe_resolves_once(observed: u32)
    requires
        observed != EMPTY,
    ensures
        spec_probe_step(observed) != ProbeStep::Resolve,
{
}

/// Progress (law): once the resolver has published, every observer uses
/// the cache; while it is resolving, every other observer spins.
pub proof fn lemma_probe_settles()
    ensures
        spec_probe_step(READY) == ProbeStep::UseCached,
        spec_probe_step(INITIALIZING) == ProbeStep::Spin,
{
}

} // verus!
