//! Two's-complement arithmetic on 64-bit registers.

use vstd::prelude::*;

verus! {

/// The signed 64-bit integer that is congruent to `x` modulo 2^64.
pub open spec fn wrap_i64(x: int) -> i64 {
    let r = x % 0x1_0000_0000_0000_0000;
    if r >= 0x8000_0000_0000_0000 {
        (r - 0x1_0000_0000_0000_0000) as i64
    } else {
        r as i64
    }
}

/// The unsigned 64-bit integer with the same bits as `x`.
pub open spec fn unsigned(x: i64) -> u64 {
    if x < 0 {
        (x + 0x1_0000_0000_0000_0000) as u64
    } else {
        x as u64
    }
}

/// Reinterprets the bits of a signed register as unsigned.
pub fn to_unsigned(x: i64) -> (r: u64)
    ensures
        r == unsigned(x),
{
    assert(x as u64 == (if x < 0 {
        (x + 0x1_0000_0000_0000_0000) as u64
    } else {
        x as u64
    })) by (bit_vector);
    #[verifier::truncate]
    (x as u64)
}

/// Reinterprets the bits of an unsigned value as a signed register.
pub fn to_signed(x: u64) -> (r: i64)
    ensures
        r == wrap_i64(x as int),
{
    assert(x as i64 == (if x >= 0x8000_0000_0000_0000 {
        (x - 0x1_0000_0000_0000_0000) as i64
    } else {
        x as i64
    })) by (bit_vector);
    #[verifier::truncate]
    (x as i64)
}

} // verus!
