//! A standalone 32-bit multiply-by-constant helper, independent of the
//! processor.

use vstd::prelude::*;

verus! {

/// The given mathematical integer wrapped into the signed 32-bit range
/// (reduction modulo 2^32).
pub open spec fn wrap_to_i32(x: int) -> i32 {
    vstd::wrapping::i32_specs::signed_crop(x)
}

/// Multiplies a signed 32-bit value by 321, wrapping modulo 2^32. Where the
/// true product fits in 32 bits the result is exact.
pub fn multiply_by_321(value: i32) -> (r: i32)
    ensures
        r == wrap_to_i32(321 * value),
        i32::MIN <= 321 * value <= i32::MAX ==> r == 321 * value,
{
    value.wrapping_mul(321)
}

} // verus!
