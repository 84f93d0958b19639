//! Saturating fixed-point arithmetic.
//!
//! A scalar is an `i64` holding a real number scaled by [`UNIT`] (so `UNIT`
//! itself denotes `1.0`). Products are divided back down by `UNIT`, with the
//! quotient rounded toward zero, and every result saturates at the `i64`
//! range instead of wrapping. This keeps all transform math total: no input
//! can overflow, and the spec-level functions below describe each operation
//! exactly.

use vstd::prelude::*;

verus! {

/// The fixed-point representation of `1.0`.
pub const UNIT: i64 = 65536;

/// Clamp a mathematical integer into the `i64` range.
pub open spec fn sat64(x: int) -> int {
    if x > i64::MAX as int {
        i64::MAX as int
    } else if x < i64::MIN as int {
        i64::MIN as int
    } else {
        x
    }
}

/// Division by `UNIT` with the quotient rounded toward zero.
pub open spec fn div_unit(p: int) -> int {
    if p >= 0 {
        p / (UNIT as int)
    } else {
        -((-p) / (UNIT as int))
    }
}

/// The fixed-point product of `a` and `b`.
pub open spec fn spec_fx_mul(a: int, b: int) -> int {
    sat64(div_unit(a * b))
}

/// The saturating sum of `a` and `b`.
pub open spec fn spec_sat_add(a: int, b: int) -> int {
    sat64(a + b)
}

/// The saturating difference of `a` and `b`.
pub open spec fn spec_sat_sub(a: int, b: int) -> int {
    sat64(a - b)
}

/// Saturating addition.
pub fn sat_add(a: i64, b: i64) -> (r: i64)
    ensures
        r as int == spec_sat_add(a as int, b as int),
{
    let s: i128 = a as i128 + b as i128;
    if s > i64::MAX as i128 {
        i64::MAX
    } else if s < i64::MIN as i128 {
        i64::MIN
    } else {
        s as i64
    }
}

/// Saturating subtraction.
pub fn sat_sub(a: i64, b: i64) -> (r: i64)
    ensures
        r as int == spec_sat_sub(a as int, b as int),
{
    let s: i128 = a as i128 - b as i128;
    if s > i64::MAX as i128 {
        i64::MAX
    } else if s < i64::MIN as i128 {
        i64::MIN
    } else {
        s as i64
    }
}

/// The fixed-point quotient of `a` by `b`: `(a * UNIT) / b`, rounded
/// toward zero, saturated at the `i64` range.
pub open spec fn spec_fx_div(a: int, b: int) -> int
    recommends
        b != 0,
{
    let num = a * (UNIT as int);
    let mag = (if num >= 0 {
        num
    } else {
        -num
    }) / (if b >= 0 {
        b
    } else {
        -b
    });
    sat64(
        if (num < 0) != (b < 0) {
            -mag
        } else {
            mag
        },
    )
}

/// Fixed-point division: `(a * UNIT) / b`, rounded toward zero, saturated
/// at the `i64` range.
pub fn fx_div(a: i64, b: i64) -> (r: i64)
    requires
        b != 0,
    ensures
        r as int == spec_fx_div(a as int, b as int),
{
    proof {
        assert(-0x8000_0000_0000_0000_0000 <= (a as int) * 65536
            <= 0x8000_0000_0000_0000_0000) by (nonlinear_arith)
            requires
                -0x8000_0000_0000_0000 <= a as int <= 0x7fff_ffff_ffff_ffff,
        ;
        assert((a as int) * (UNIT as int) == (a as int) * 65536);
    }
    let num: i128 = (a as i128) * (UNIT as i128);
    let num_mag: u128 = if num >= 0 {
        num as u128
    } else {
        (-num) as u128
    };
    let b_mag: u128 = if b >= 0 {
        b as u128
    } else {
        (-(b as i128)) as u128
    };
    proof {
        assert(b_mag > 0);
    }
    let mag: u128 = num_mag / b_mag;
    let q: i128 = if (num < 0) != (b < 0) {
        -(mag as i128)
    } else {
        mag as i128
    };
    if q > i64::MAX as i128 {
        i64::MAX
    } else if q < i64::MIN as i128 {
        i64::MIN
    } else {
        q as i64
    }
}

/// Fixed-point multiplication: `(a * b) / UNIT`, rounded toward zero,
/// saturated at the `i64` range.
pub fn fx_mul(a: i64, b: i64) -> (r: i64)
    ensures
        r as int == spec_fx_mul(a as int, b as int),
{
    proof {
        assert((a as int) * (b as int) <= 0x4000_0000_0000_0000_0000_0000_0000_0000
            && (a as int) * (b as int) >= -0x4000_0000_0000_0000_0000_0000_0000_0000)
            by (nonlinear_arith)
            requires
                -0x8000_0000_0000_0000 <= a as int <= 0x7fff_ffff_ffff_ffff,
                -0x8000_0000_0000_0000 <= b as int <= 0x7fff_ffff_ffff_ffff,
        ;
    }
    let p: i128 = (a as i128) * (b as i128);
    let q: i128 = if p >= 0 {
        (((p as u128) / (UNIT as u128)) as i128)
    } else {
        let m: u128 = (-p) as u128;
        -((m / (UNIT as u128)) as i128)
    };
    if q > i64::MAX as i128 {
        i64::MAX
    } else if q < i64::MIN as i128 {
        i64::MIN
    } else {
        q as i64
    }
}

} // verus!
