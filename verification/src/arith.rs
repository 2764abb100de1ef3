//! Integer addition under the wrapping overflow policy.

use vstd::prelude::*;

verus! {

/// Adds two 32-bit integers under two's-complement wrapping: when the
/// mathematical sum is representable it is returned unchanged, and
/// otherwise it wraps around modulo 2^32.
pub fn add(a: i32, b: i32) -> (r: i32)
    ensures
        i32::MIN <= a + b <= i32::MAX ==> r == a + b,
        a + b > i32::MAX ==> r == a + b - 0x1_0000_0000,
        a + b < i32::MIN ==> r == a + b + 0x1_0000_0000,
{
    a.wrapping_add(b)
}

} // verus!
