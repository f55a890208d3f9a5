//! Fixed-point arithmetic with sixteen fractional bits.
use vstd::prelude::*;

verus! {

/// The raw value that stands for the real number one.
pub const ONE: i32 = 65536;

/// The raw value of a gene that lies nearest to `x`.
pub open spec fn saturate(x: int) -> i32 {
    if x < i32::MIN {
        i32::MIN
    } else if x > i32::MAX {
        i32::MAX
    } else {
        x as i32
    }
}

/// Narrows a wide intermediate result to the range of a gene.
pub fn saturating(x: i128) -> (r: i32)
    ensures
        r == saturate(x as int),
{
    if x < i32::MIN as i128 {
        i32::MIN
    } else if x > i32::MAX as i128 {
        i32::MAX
    } else {
        x as i32
    }
}

/// The product of two non-negative fixed-point numbers, rounded down.
pub open spec fn scaled_product(a: int, b: int) -> int {
    (a * b) / (ONE as int)
}

} // verus!
