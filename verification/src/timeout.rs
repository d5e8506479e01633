//! Relative timeouts and their conversion to the kernels' units.
//!
//! Every platform takes a relative timeout in a unit of its own, and every
//! conversion follows the same policy: round up to the platform's
//! granularity, and turn a value that overflows the platform's
//! representation into "no timeout" (wait indefinitely).

use core::time::Duration;

use vstd::prelude::*;

verus! {

/// The whole-second part of a duration, a function of the duration alone.
pub uninterp spec fn secs_of(d: Duration) -> u64;

/// The sub-second part of a duration in nanoseconds, a function of the
/// duration alone.
pub uninterp spec fn subsec_nanos_of(d: Duration) -> u32;

/// Relies on `Duration::as_secs`: the whole-second part of the duration.
pub assume_specification [ Duration::as_secs ](d: &Duration) -> (r: u64)
    ensures
        r == secs_of(*d),
;

/// Relies on `Duration::subsec_nanos`: the fractional part of the duration
/// in nanoseconds, which is always below one billion.
pub assume_specification [ Duration::subsec_nanos ](d: &Duration) -> (r: u32)
    ensures
        r == subsec_nanos_of(*d),
        r < 1_000_000_000,
;

/// Whether a whole-second count is representable in the kernel's `time_t`.
/// A count beyond it cannot be expressed in a `timespec`; the caller then
/// waits without a timeout.
pub fn fits_kernel_seconds(secs: u64) -> (r: bool)
    ensures
        r == (secs <= 0x7fff_ffff_ffff_ffff),
{
    secs <= 0x7fff_ffff_ffff_ffff
}

/// A relative timeout in the shape the futex-style syscalls take: whole
/// seconds and a sub-second nanosecond part.
#[derive(Clone, Copy, PartialEq, Eq, Structural, Debug)]
pub struct TimeSpec {
    pub secs: i64,
    pub nanos: u32,
}

/// A duration as a count of microseconds, rounded up.
pub open spec fn spec_total_micros(secs: u64, nanos: u32) -> int {
    secs * 1_000_000 + (nanos + 999) / 1000
}

/// A duration as a count of milliseconds, rounded up.
pub open spec fn spec_total_millis(secs: u64, nanos: u32) -> int {
    secs * 1000 + (nanos + 999_999) / 1_000_000
}

/// A duration as a count of 100 ns ticks, rounded up.
pub open spec fn spec_total_100ns(secs: u64, nanos: u32) -> int {
    secs * 10_000_000 + (nanos + 99) / 100
}

/// A duration as a count of nanoseconds.
pub open spec fn spec_total_nanos(secs: u64, nanos: u32) -> int {
    secs * 1_000_000_000 + nanos
}

/// The timeout value in milliseconds that means "wait indefinitely".
pub const INFINITE_MS: u32 = 0xffff_ffff;

/// Convert a timeout to a relative `timespec` for the kernels that take
/// one.  Seconds beyond `time_t` cannot be represented: the result is then
/// none, and the caller waits indefinitely.
pub fn convert_timeout(secs: u64, nanos: u32) -> (r: Option<TimeSpec>)
    requires
        nanos < 1_000_000_000,
    ensures
        r is Some <==> secs <= 0x7fff_ffff_ffff_ffff,
        r matches Some(ts) ==> ts.secs == secs && ts.nanos == nanos,
{
    if secs > 0x7fff_ffff_ffff_ffff {
        None
    } else {
        Some(TimeSpec { secs: secs as i64, nanos })
    }
}

/// Convert a timeout to whole microseconds, rounding nanoseconds up, for
/// the kernels that take a microsecond count with `0` meaning "wait
/// indefinitely".  A count that overflows the 32-bit argument becomes an
/// indefinite wait.
pub fn convert_timeout_us(secs: u64, nanos: u32) -> (r: u32)
    requires
        nanos < 1_000_000_000,
    ensures
        spec_total_micros(secs, nanos) > u32::MAX ==> r == 0,
        spec_total_micros(secs, nanos) <= u32::MAX ==> r == spec_total_micros(secs, nanos),
{
    if secs > 4294 {
        return 0;
    }
    let micros: u64 = secs * 1_000_000 + ((nanos as u64) + 999) / 1000;
    if micros > 0xffff_ffff {
        0
    } else {
        micros as u32
    }
}

/// Convert a timeout to whole milliseconds, rounding nanoseconds up, for
/// the kernels that take a millisecond count with [`INFINITE_MS`] meaning
/// "wait indefinitely".  A count that overflows becomes an indefinite wait.
pub fn convert_timeout_ms(secs: u64, nanos: u32) -> (r: u32)
    requires
        nanos < 1_000_000_000,
    ensures
        spec_total_millis(secs, nanos) > u32::MAX ==> r == INFINITE_MS,
        spec_total_millis(secs, nanos) <= u32::MAX ==> r == spec_total_millis(secs, nanos),
{
    if secs > 4_294_967 {
        return INFINITE_MS;
    }
    let millis: u64 = secs * 1000 + ((nanos as u64) + 999_999) / 1_000_000;
    if millis > 0xffff_ffff {
        INFINITE_MS
    } else {
        millis as u32
    }
}

/// Convert a timeout to 100 ns ticks, negated, as the NT kernel's relative
/// timeouts are written, rounding nanoseconds up.  A count of ticks beyond
/// the signed 64-bit range cannot be represented: the result is then none,
/// and the caller waits indefinitely.
pub fn convert_timeout_100ns(secs: u64, nanos: u32) -> (r: Option<i64>)
    requires
        nanos < 1_000_000_000,
    ensures
        r is Some <==> spec_total_100ns(secs, nanos) <= 0x8000_0000_0000_0000,
        r matches Some(t) ==> t == -spec_total_100ns(secs, nanos),
{
    if secs > 922_337_203_685 {
        return None;
    }
    let ticks: u64 = secs * 10_000_000 + ((nanos as u64) + 99) / 100;
    if ticks > 0x8000_0000_0000_0000 {
        None
    } else if ticks == 0x8000_0000_0000_0000 {
        Some(i64::MIN)
    } else {
        Some(-(ticks as i64))
    }
}

/// Convert a timeout to whole nanoseconds for the kernels that take a
/// signed nanosecond count with `-1` meaning "wait indefinitely".  A count
/// beyond the signed 64-bit range becomes an indefinite wait.
pub fn convert_timeout_ns(secs: u64, nanos: u32) -> (r: i64)
    requires
        nanos < 1_000_000_000,
    ensures
        spec_total_nanos(secs, nanos) > i64::MAX ==> r == -1,
        spec_total_nanos(secs, nanos) <= i64::MAX ==> r == spec_total_nanos(secs, nanos),
{
    if secs > 9_223_372_036 {
        return -1;
    }
    let total: u64 = secs * 1_000_000_000 + (nanos as u64);
    if total > 0x7fff_ffff_ffff_ffff {
        -1
    } else {
        total as i64
    }
}

} // verus!
