//! Parsing of the kernel release string.
//!
//! One platform chooses its wait primitive by the Darwin major version: the
//! `kern.osrelease` sysctl fills a buffer with a NUL-terminated string such
//! as `16.7.0`, and the wait-on-address calls exist from major 16 on.  The
//! sysctl itself is the platform layer's business; this module turns the
//! buffer it produced into the three version numbers and takes the
//! decision.  A segment that is empty, non-numeric or too large counts as
//! zero, and missing segments stay zero.

use vstd::prelude::*;

verus! {

/// Position of the first `b` in `s` at or after `from`, or the length of
/// `s` when there is none.
pub open spec fn spec_find(s: Seq<u8>, b: u8, from: nat) -> nat
    decreases s.len() - from,
{
    if from >= s.len() {
        s.len()
    } else if s[from as int] == b {
        from
    } else {
        spec_find(s, b, (from + 1) as nat)
    }
}

/// Length of the part of the buffer the parse reads: up to and including
/// the first NUL, or the whole buffer when there is none.
pub open spec fn spec_prefix_len(s: Seq<u8>) -> nat {
    let n = spec_find(s, 0, 0);
    if n == s.len() {
        n
    } else {
        (n + 1) as nat
    }
}

/// Whether every byte of `s` is a decimal digit.
pub open spec fn spec_all_digits(s: Seq<u8>) -> bool {
    forall|i: int| 0 <= i < s.len() ==> 0x30 <= #[trigger] s[i] <= 0x39
}

/// The number the digits of `s` spell.
pub open spec fn spec_dec_value(s: Seq<u8>) -> int
    decreases s.len(),
{
    if s.len() == 0 {
        0
    } else {
        spec_dec_value(s.drop_last()) * 10 + (s.last() - 0x30)
    }
}

/// The version number a segment stands for: its decimal value when it is a
/// nonempty string of digits that fits, and zero otherwise.
pub open spec fn spec_segment_u16(s: Seq<u8>) -> u16 {
    if s.len() > 0 && spec_all_digits(s) && spec_dec_value(s) <= 0xffff {
        spec_dec_value(s) as u16
    } else {
        0u16
    }
}

/// The three version numbers of a release buffer: the values of the first
/// three dot-separated segments of its NUL-terminated prefix.
pub open spec fn spec_release_parts(s: Seq<u8>) -> (u16, u16, u16) {
    let t = s.take(spec_prefix_len(s) as int);
    let d1 = spec_find(t, 0x2e, 0);
    let v1 = spec_segment_u16(t.take(d1 as int));
    if d1 == t.len() {
        (v1, 0u16, 0u16)
    } else {
        let d2 = spec_find(t, 0x2e, (d1 + 1) as nat);
        let v2 = spec_segment_u16(t.subrange(d1 + 1 as int, d2 as int));
        if d2 == t.len() {
            (v1, v2, 0u16)
        } else {
            let d3 = spec_find(t, 0x2e, (d2 + 1) as nat);
            (v1, v2, spec_segment_u16(t.subrange(d2 + 1 as int, d3 as int)))
        }
    }
}

/// A string of digits spells a nonnegative number.
proof fn lemma_dec_value_nonneg(s: Seq<u8>)
    requires
        spec_all_digits(s),
    ensures
        spec_dec_value(s) >= 0,
    decreases s.len(),
{
    if s.len() > 0 {
        assert(spec_all_digits(s.drop_last()));
        lemma_dec_value_nonneg(s.drop_last());
    }
}

/// Appending digits never shrinks the number they spell.
proof fn lemma_dec_value_grows(s: Seq<u8>, i: int)
    requires
        spec_all_digits(s),
        0 <= i <= s.len(),
    ensures
        spec_dec_value(s) >= spec_dec_value(s.take(i)),
    decreases s.len() - i,
{
    if i < s.len() {
        assert(s.take(i + 1).drop_last() =~= s.take(i));
        assert(s.take(i + 1).last() == s[i]);
        assert(spec_all_digits(s.take(i)));
        lemma_dec_value_nonneg(s.take(i));
        lemma_dec_value_grows(s, i + 1);
    } else {
        assert(s.take(i) =~= s);
    }
}

/// Position of the first `b` in `buf` at or after `from` and before `end`,
/// reported against the prefix of length `end`.
fn find_in_prefix(buf: &[u8], b: u8, from: usize, end: usize) -> (r: usize)
    requires
        from <= end,
        end <= buf@.len(),
    ensures
        r == spec_find(buf@.take(end as int), b, from as nat),
        from <= r <= end,
        r < end ==> buf@[r as int] == b,
{
    let ghost t = buf@.take(end as int);
    let mut i: usize = from;
    while i < end
        invariant
            from <= i <= end,
            end <= buf@.len(),
            t == buf@.take(end as int),
            spec_find(t, b, from as nat) == spec_find(t, b, i as nat),
        decreases end - i,
    {
        proof {
            assert(t[i as int] == buf@[i as int]);
        }
        if buf[i] == b {
            return i;
        }
        i = i + 1;
    }
    i
}

/// The version number a segment of the buffer stands for.
fn parse_segment(buf: &[u8], start: usize, end: usize) -> (r: u16)
    requires
        start <= end,
        end <= buf@.len(),
    ensures
        r == spec_segment_u16(buf@.subrange(start as int, end as int)),
{
    let ghost seg = buf@.subrange(start as int, end as int);
    if start == end {
        return 0;
    }
    let mut value: u32 = 0;
    let mut i: usize = start;
    while i < end
        invariant
            start <= i <= end,
            end <= buf@.len(),
            seg == buf@.subrange(start as int, end as int),
            spec_all_digits(seg.take(i - start)),
            value == spec_dec_value(seg.take(i - start)),
            value <= 0xffff,
        decreases end - i,
    {
        let byte = buf[i];
        proof {
            assert(seg[i - start] == buf@[i as int]);
        }
        if byte < 0x30 || byte > 0x39 {
            // A stray byte spoils the whole segment.
            proof {
                assert(!spec_all_digits(seg)) by {
                    assert(seg[i - start] == byte);
                }
            }
            return 0;
        }
        let digit: u32 = (byte - 0x30) as u32;
        proof {
            assert(seg.take(i - start + 1).drop_last() =~= seg.take(i - start));
            assert(seg.take(i - start + 1).last() == seg[i - start]);
        }
        if value > 6553 || (value == 6553 && digit > 5) {
            // The number does not fit; the segment counts as zero whether
            // or not more digits follow.
            proof {
                if spec_all_digits(seg) {
                    lemma_dec_value_grows(seg, i - start + 1);
                }
            }
            return 0;
        }
        value = value * 10 + digit;
        i = i + 1;
    }
    proof {
        assert(seg.take(i - start) =~= seg);
    }
    value as u16
}

/// The three version numbers of a NUL-terminated release buffer, such as
/// the one the `kern.osrelease` sysctl fills.
pub fn parse_release(buf: &[u8]) -> (r: (u16, u16, u16))
    ensures
        r == spec_release_parts(buf@),
{
    let nul = find_in_prefix(buf, 0, 0, buf.len());
    proof {
        assert(buf@.take(buf@.len() as int) =~= buf@);
    }
    let plen = if nul == buf.len() {
        nul
    } else {
        nul + 1
    };
    let ghost t = buf@.take(plen as int);
    let d1 = find_in_prefix(buf, 0x2e, 0, plen);
    proof {
        assert(buf@.subrange(0, d1 as int) =~= t.take(d1 as int));
    }
    let v1 = parse_segment(buf, 0, d1);
    if d1 == plen {
        return (v1, 0, 0);
    }
    let d2 = find_in_prefix(buf, 0x2e, d1 + 1, plen);
    proof {
        assert(buf@.subrange(d1 + 1, d2 as int) =~= t.subrange(d1 + 1, d2 as int));
    }
    let v2 = parse_segment(buf, d1 + 1, d2);
    if d2 == plen {
        return (v1, v2, 0);
    }
    let d3 = find_in_prefix(buf, 0x2e, d2 + 1, plen);
    proof {
        assert(buf@.subrange(d2 + 1, d3 as int) =~= t.subrange(d2 + 1, d3 as int));
    }
    let v3 = parse_segment(buf, d2 + 1, d3);
    (v1, v2, v3)
}

/// Whether the parsed release has the wait-on-address calls: they exist
/// from Darwin major 16 on.
pub fn ulock_available(major: u16) -> (r: bool)
    ensures
        r == (major >= 16),
{
    major >= 16
}

} // verus!
