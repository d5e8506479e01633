use valet_boy::release::{parse_release, ulock_available};

#[test]
fn release_parses_three_segments() {
    assert_eq!(parse_release(b"18.2.1"), (18, 2, 1));
    assert_eq!(parse_release(b"9.8"), (9, 8, 0));
    assert_eq!(parse_release(b"16"), (16, 0, 0));
}

// The buffer is read up to and including its NUL terminator, so the
// terminator spoils the segment it lands in, exactly as reading the raw
// sysctl buffer does.
#[test]
fn release_reads_up_to_nul() {
    assert_eq!(parse_release(b"16.7.0\0garbage.4.5"), (16, 7, 0));
    assert_eq!(parse_release(b"20.1\0.9"), (20, 0, 0));
    assert_eq!(parse_release(b"\0"), (0, 0, 0));
}

// A segment that is empty, non-numeric or too large counts as zero.
#[test]
fn release_bad_segments_are_zero() {
    assert_eq!(parse_release(b""), (0, 0, 0));
    assert_eq!(parse_release(b"banana"), (0, 0, 0));
    assert_eq!(parse_release(b"70000.1.2"), (0, 1, 2));
    assert_eq!(parse_release(b"65535.65536.3"), (65535, 0, 3));
    assert_eq!(parse_release(b"..7"), (0, 0, 7));
    assert_eq!(parse_release(b"1x.2.3"), (0, 2, 3));
}

#[test]
fn ulock_cutoff_is_major_sixteen() {
    assert!(ulock_available(16));
    assert!(ulock_available(18));
    assert!(!ulock_available(15));
    assert!(!ulock_available(0));
}
