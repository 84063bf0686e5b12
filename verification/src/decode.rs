//! Decoding of the frame-info payload.
//!
//! The intercepted call carries a caller-owned byte buffer whose first
//! eight bytes, read as a little-endian signed 64-bit integer, are a vsync
//! timestamp in nanoseconds. The hook reports it in milliseconds, using
//! truncating (round-toward-zero) integer division by one million.

use vstd::prelude::*;

verus! {

/// Nanoseconds in one millisecond.
pub const NANOS_PER_MILLI: u64 = 1_000_000;

/// The first eight bytes of `s`, read as an unsigned little-endian integer.
pub open spec fn le_u64_at_start(s: Seq<u8>) -> int {
    s[0] + s[1] * 0x100 + s[2] * 0x1_0000 + s[3] * 0x100_0000 + s[4] * 0x1_0000_0000 + s[5]
        * 0x100_0000_0000 + s[6] * 0x1_0000_0000_0000 + s[7] * 0x100_0000_0000_0000
}

/// The vsync timestamp in nanoseconds: the first eight bytes of the
/// payload as a little-endian two's-complement signed 64-bit integer.
pub open spec fn vsync_ns_of(s: Seq<u8>) -> int {
    let u = le_u64_at_start(s);
    if u < 0x8000_0000_0000_0000 {
        u
    } else {
        u - 0x1_0000_0000_0000_0000
    }
}

/// Truncating (round-toward-zero) division of `n` by a positive `d`.
pub open spec fn div_trunc(n: int, d: int) -> int
    recommends
        d > 0,
{
    if n >= 0 {
        n / d
    } else {
        -((-n) / d)
    }
}

/// Milliseconds reported for a nanosecond timestamp.
pub open spec fn millis_of_nanos(ns: int) -> int {
    div_trunc(ns, NANOS_PER_MILLI as int)
}

/// Reads the vsync timestamp from the start of the frame-info payload.
pub fn decode_vsync_ns(frame_info: &Vec<u8>) -> (ns: i64)
    requires
        frame_info@.len() >= 8,
    ensures
        ns as int == vsync_ns_of(frame_info@),
{
    let unsigned: u64 = (frame_info[0] as u64) + (frame_info[1] as u64) * 0x100 + (frame_info[2]
        as u64) * 0x1_0000 + (frame_info[3] as u64) * 0x100_0000 + (frame_info[4] as u64)
        * 0x1_0000_0000 + (frame_info[5] as u64) * 0x100_0000_0000 + (frame_info[6] as u64)
        * 0x1_0000_0000_0000 + (frame_info[7] as u64) * 0x100_0000_0000_0000;
    if unsigned < 0x8000_0000_0000_0000 {
        unsigned as i64
    } else {
        let magnitude: u64 = (u64::MAX - unsigned) + 1;
        if magnitude == 0x8000_0000_0000_0000 {
            i64::MIN
        } else {
            -(magnitude as i64)
        }
    }
}

/// Converts a nanosecond timestamp to milliseconds, rounding toward zero.
pub fn millis_from_nanos(ns: i64) -> (ms: i64)
    ensures
        ms as int == millis_of_nanos(ns as int),
{
    if ns >= 0 {
        ((ns as u64) / NANOS_PER_MILLI) as i64
    } else {
        let magnitude: u64 = ((-(ns + 1)) as u64) + 1;
        -((magnitude / NANOS_PER_MILLI) as i64)
    }
}

/// Decodes the payload's vsync timestamp and reports it in milliseconds.
pub fn decode_vsync_millis(frame_info: &Vec<u8>) -> (ms: i64)
    requires
        frame_info@.len() >= 8,
    ensures
        ms as int == millis_of_nanos(vsync_ns_of(frame_info@)),
{
    let ns = decode_vsync_ns(frame_info);
    millis_from_nanos(ns)
}

} // verus!
