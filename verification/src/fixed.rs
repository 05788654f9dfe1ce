//! Q32.32 fixed-point base of the diffusion engine.
//!
//! Every scalar that the engine mixes is an `i64` holding a value scaled by
//! `2^32`. The irrational constants are the same bit patterns the scoring
//! formulas are built around; arithmetic on mixed values wraps on overflow by
//! design, so the diffusion stays defined (and deterministic) for every input.

use vstd::prelude::*;

verus! {

/// Fixed-point diffusion constant derived from pi.
pub const PI_FIXED: i64 = 3373259426;

/// Twice `PI_FIXED`; the period used when range-reducing angles.
pub const TWO_PI_FIXED: i64 = 6746518852;

/// Fixed-point diffusion constant derived from the golden ratio phi.
pub const PHI_FIXED: i64 = 6941587532;

/// One whole unit (1.0) in Q32.32: the modulus that keeps compact scalars in
/// [0, 1.0).
pub const ONE_FIXED: i64 = 4294967296;

/// Rust's truncating remainder for a positive divisor: the remainder keeps
/// the sign of the dividend.
pub open spec fn spec_trunc_rem(x: i64, d: i64) -> i64
    recommends
        d > 0,
{
    if x >= 0 {
        ((x as int) % (d as int)) as i64
    } else {
        (-((-(x as int)) % (d as int))) as i64
    }
}

/// Euclidean remainder against 1.0 in Q32.32: the fractional part, in [0, 1.0).
pub open spec fn spec_unit_fraction(x: i64) -> i64 {
    ((x as int) % (ONE_FIXED as int)) as i64
}

/// Truncating remainder of `x` by a positive divisor `d`.
pub fn trunc_rem(x: i64, d: i64) -> (r: i64)
    requires
        d > 0,
    ensures
        r == spec_trunc_rem(x, d),
        -d < r < d,
{
    let r: i64 = x.checked_rem(d).unwrap();
    r
}

/// Euclidean remainder of `x` against `ONE_FIXED`.
pub fn rem_one(x: i64) -> (r: i64)
    ensures
        r == spec_unit_fraction(x),
        0 <= r < ONE_FIXED,
{
    let r: i64 = x.checked_rem_euclid(ONE_FIXED).unwrap();
    r
}

/// Arithmetic right shift by 32: the upper half of a Q32.32 product.
pub fn shift_down(v: i64) -> (r: i64)
    ensures
        r == (v >> 32u32),
        -0x80000000 <= r < 0x80000000,
{
    let r: i64 = v >> 32u32;
    proof {
        assert(-0x80000000 <= (v >> 32u32) < 0x80000000) by (bit_vector);
    }
    r
}

} // verus!
