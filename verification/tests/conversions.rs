use valet_boy::timeout::{
    convert_timeout, convert_timeout_100ns, convert_timeout_ms, convert_timeout_ns,
    convert_timeout_us, INFINITE_MS,
};

#[test]
fn timespec_passes_parts_through() {
    let ts = convert_timeout(3, 500_000_000).unwrap();
    assert_eq!(ts.secs, 3);
    assert_eq!(ts.nanos, 500_000_000);
    let edge = convert_timeout(0x7fff_ffff_ffff_ffff, 999_999_999).unwrap();
    assert_eq!(edge.secs, i64::MAX);
}

// Seconds beyond the kernel's time_t cannot be represented; the caller then
// waits as if no timeout was supplied.
#[test]
fn timespec_overflow_means_infinite() {
    assert_eq!(convert_timeout(0x8000_0000_0000_0000, 0), None);
    assert_eq!(convert_timeout(u64::MAX, 999_999_999), None);
}

#[test]
fn micros_round_up() {
    assert_eq!(convert_timeout_us(0, 1), 1);
    assert_eq!(convert_timeout_us(0, 999), 1);
    assert_eq!(convert_timeout_us(0, 1000), 1);
    assert_eq!(convert_timeout_us(0, 1001), 2);
    assert_eq!(convert_timeout_us(2, 500_000_000), 2_500_000);
}

#[test]
fn micros_overflow_means_infinite() {
    // The largest representable count, then one step past it.
    assert_eq!(convert_timeout_us(4294, 967_295_000), u32::MAX);
    assert_eq!(convert_timeout_us(4294, 967_295_001), 0);
    assert_eq!(convert_timeout_us(5000, 0), 0);
}

#[test]
fn millis_round_up() {
    assert_eq!(convert_timeout_ms(0, 1), 1);
    assert_eq!(convert_timeout_ms(0, 999_999), 1);
    assert_eq!(convert_timeout_ms(0, 1_000_001), 2);
    assert_eq!(convert_timeout_ms(1, 500_000_000), 1500);
}

#[test]
fn millis_overflow_means_infinite() {
    assert_eq!(convert_timeout_ms(4_294_967, 295_000_000), INFINITE_MS);
    assert_eq!(convert_timeout_ms(4_294_967, 296_000_000), INFINITE_MS);
    assert_eq!(convert_timeout_ms(5_000_000, 0), INFINITE_MS);
}

// NT writes relative timeouts as negated 100 ns ticks, rounded up.
#[test]
fn ticks_are_negated_and_rounded_up() {
    assert_eq!(convert_timeout_100ns(0, 1), Some(-1));
    assert_eq!(convert_timeout_100ns(0, 100), Some(-1));
    assert_eq!(convert_timeout_100ns(0, 101), Some(-2));
    assert_eq!(convert_timeout_100ns(1, 0), Some(-10_000_000));
}

#[test]
fn ticks_overflow_means_infinite() {
    // The last value that still fits the signed 64-bit range, the exact
    // boundary, and one step past it.
    assert_eq!(convert_timeout_100ns(922_337_203_685, 477_580_700), Some(-i64::MAX));
    assert_eq!(convert_timeout_100ns(922_337_203_685, 477_580_800), Some(i64::MIN));
    assert_eq!(convert_timeout_100ns(922_337_203_685, 477_580_900), None);
    assert_eq!(convert_timeout_100ns(922_337_203_686, 0), None);
    assert_eq!(convert_timeout_100ns(u64::MAX, 0), None);
}

#[test]
fn nanos_pass_through() {
    assert_eq!(convert_timeout_ns(0, 5), 5);
    assert_eq!(convert_timeout_ns(2, 3), 2_000_000_003);
    assert_eq!(convert_timeout_ns(9_223_372_036, 854_775_807), i64::MAX);
}

#[test]
fn nanos_overflow_means_infinite() {
    assert_eq!(convert_timeout_ns(9_223_372_036, 854_775_808), -1);
    assert_eq!(convert_timeout_ns(9_223_372_037, 0), -1);
    assert_eq!(convert_timeout_ns(u64::MAX, 999_999_999), -1);
}
