//! Saturating arithmetic helpers missing from the standard specifications.

use vstd::prelude::*;

verus! {

/// Product of two `u32` values, clamped to the type limit.
pub open spec fn spec_sat_mul_u32(a: u32, b: u32) -> u32 {
    if a * b > u32::MAX {
        u32::MAX
    } else {
        (a * b) as u32
    }
}

/// Multiply two `u32` values, saturating at the type limit.
pub fn sat_mul_u32(a: u32, b: u32) -> (r: u32)
    ensures
        r == spec_sat_mul_u32(a, b),
{
    proof {
        assert((a as u64) * (b as u64) == (a as int) * (b as int)) by (nonlinear_arith);
        assert((a as int) * (b as int) <= (u32::MAX as int) * (u32::MAX as int)) by (nonlinear_arith)
            requires
                a <= u32::MAX && b <= u32::MAX,
        ;
    }
    let p: u64 = (a as u64) * (b as u64);
    if p > u32::MAX as u64 {
        u32::MAX
    } else {
        p as u32
    }
}

} // verus!
