//! Real numbers as the host hands them over: IEEE 754 bit patterns.
//!
//! The editor never computes with a coordinate. It stores the pattern, tells
//! finite from non-finite values, and compares a measured length with a
//! positive limit; arithmetic is the host's (see `host`).
use vstd::prelude::*;

verus! {

/// The sign bit of a single-precision pattern.
pub const SIGN_32: u32 = 0x8000_0000;

/// Positive infinity in single precision.
pub const INFINITY_32: u32 = 0x7f80_0000;

/// The largest finite single-precision number.
pub const MAX_32: u32 = 0x7f7f_ffff;

/// The sign bit of a double-precision pattern.
pub const SIGN_64: u64 = 0x8000_0000_0000_0000;

/// Positive infinity in double precision.
pub const INFINITY_64: u64 = 0x7ff0_0000_0000_0000;

/// The largest finite double-precision number.
pub const MAX_64: u64 = 0x7fef_ffff_ffff_ffff;

/// The pattern without its sign bit.
pub open spec fn magnitude_32(bits: u32) -> u32 {
    if bits >= SIGN_32 {
        (bits - SIGN_32) as u32
    } else {
        bits
    }
}

/// Zero, subnormal or normal: neither an infinity nor a NaN.
pub open spec fn is_finite_32(bits: u32) -> bool {
    magnitude_32(bits) < INFINITY_32
}

/// Not a number.
pub open spec fn is_nan_32(bits: u32) -> bool {
    magnitude_32(bits) > INFINITY_32
}

/// The pattern without its sign bit.
pub open spec fn magnitude_64(bits: u64) -> u64 {
    if bits >= SIGN_64 {
        (bits - SIGN_64) as u64
    } else {
        bits
    }
}

/// Zero, subnormal or normal: neither an infinity nor a NaN.
pub open spec fn is_finite_64(bits: u64) -> bool {
    magnitude_64(bits) < INFINITY_64
}

/// What is written to a file for a single-precision number: the number itself
/// when it is finite, the largest finite number otherwise.
pub open spec fn storable_32(bits: u32) -> u32 {
    if is_finite_32(bits) {
        bits
    } else {
        MAX_32
    }
}

/// What is written to a file for a double-precision number: the number itself
/// when it is finite, the largest finite number otherwise.
pub open spec fn storable_64(bits: u64) -> u64 {
    if is_finite_64(bits) {
        bits
    } else {
        MAX_64
    }
}

/// A positive finite number, the only kind of limit a length is held against.
pub open spec fn is_limit(bits: u32) -> bool {
    0 < bits < INFINITY_32
}

/// `value >= limit` as numbers, for a positive finite `limit`. Such a value is
/// positive, and among positive numbers the patterns are ordered as the numbers
/// are; a NaN reaches nothing.
pub open spec fn reaches(value: u32, limit: u32) -> bool
    recommends
        is_limit(limit),
{
    limit <= value <= INFINITY_32
}

/// `value <= limit` as numbers, for a positive finite `limit`: every negative
/// number and zero, and the positive numbers up to the limit. A NaN is within
/// nothing.
pub open spec fn within(value: u32, limit: u32) -> bool
    recommends
        is_limit(limit),
{
    !is_nan_32(value) && (value >= SIGN_32 || value <= limit)
}

/// Whether a single-precision number is finite.
pub fn finite_32(bits: u32) -> (finite: bool)
    ensures
        finite == is_finite_32(bits),
{
    let magnitude: u32 = if bits >= SIGN_32 {
        bits - SIGN_32
    } else {
        bits
    };
    magnitude < INFINITY_32
}

/// Whether a double-precision number is finite.
pub fn finite_64(bits: u64) -> (finite: bool)
    ensures
        finite == is_finite_64(bits),
{
    let magnitude: u64 = if bits >= SIGN_64 {
        bits - SIGN_64
    } else {
        bits
    };
    magnitude < INFINITY_64
}

/// Replaces an infinity or a NaN by the largest finite number.
pub fn to_storable_32(bits: u32) -> (stored: u32)
    ensures
        stored == storable_32(bits),
{
    if finite_32(bits) {
        bits
    } else {
        MAX_32
    }
}

/// Replaces an infinity or a NaN by the largest finite number.
pub fn to_storable_64(bits: u64) -> (stored: u64)
    ensures
        stored == storable_64(bits),
{
    if finite_64(bits) {
        bits
    } else {
        MAX_64
    }
}

/// Whether a measured length is at least `limit`.
pub fn length_reaches(value: u32, limit: u32) -> (yes: bool)
    requires
        is_limit(limit),
    ensures
        yes == reaches(value, limit),
{
    limit <= value && value <= INFINITY_32
}

/// Whether a measured length is at most `limit`.
pub fn length_within(value: u32, limit: u32) -> (yes: bool)
    requires
        is_limit(limit),
    ensures
        yes == within(value, limit),
{
    if value >= SIGN_32 {
        value - SIGN_32 <= INFINITY_32
    } else {
        value <= limit
    }
}

/// Storing is a projection: what was stored once is stored unchanged, it is
/// finite, and a finite number is stored as it is.
pub proof fn law_stored_number_32(bits: u32)
    ensures
        is_finite_32(storable_32(bits)),
        storable_32(storable_32(bits)) == storable_32(bits),
        is_finite_32(bits) ==> storable_32(bits) == bits,
        !is_finite_32(bits) ==> storable_32(bits) == MAX_32,
{
}

/// Storing is a projection in double precision too.
pub proof fn law_stored_number_64(bits: u64)
    ensures
        is_finite_64(storable_64(bits)),
        storable_64(storable_64(bits)) == storable_64(bits),
        is_finite_64(bits) ==> storable_64(bits) == bits,
        !is_finite_64(bits) ==> storable_64(bits) == MAX_64,
{
}

} // verus!
