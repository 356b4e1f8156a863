//! Fixed-point arithmetic on `i64` values counted in millionths.
//!
//! Sums and products that leave the range of `i64` stop at its nearest end;
//! quotients round toward zero.

use vstd::prelude::*;

verus! {

/// The raw value of the number one.
pub const SCALE: i64 = 1_000_000;

/// Numerator of the radians in one degree, over `RADIAN_DIVISOR`.
pub const RADIANS_PER_DEGREE: i64 = 17_453_293;

/// Denominator that goes with `RADIANS_PER_DEGREE`.
pub const RADIAN_DIVISOR: i64 = 1_000_000_000;

/// The nearest value to `x` that an `i64` can hold.
pub open spec fn saturate(x: int) -> int {
    if x < i64::MIN as int {
        i64::MIN as int
    } else if x > i64::MAX as int {
        i64::MAX as int
    } else {
        x
    }
}

/// `n / d` rounded toward zero, for a positive `d`.
pub open spec fn quotient(n: int, d: int) -> int
    recommends
        d > 0,
{
    if n >= 0 {
        n / d
    } else {
        -((-n) / d)
    }
}

/// The fixed-point product of two raw values.
pub open spec fn product(a: int, b: int) -> int {
    saturate(quotient(a * b, SCALE as int))
}

/// An angle given in degrees, in radians.
pub open spec fn radians(degrees: int) -> int {
    quotient(degrees * RADIANS_PER_DEGREE as int, RADIAN_DIVISOR as int)
}

/// The smaller of two values.
pub open spec fn lesser(a: int, b: int) -> int {
    if a <= b {
        a
    } else {
        b
    }
}

/// `x` held between `low` and `high`.
pub open spec fn clamped(x: int, low: int, high: int) -> int
    recommends
        low <= high,
{
    if x < low {
        low
    } else if x > high {
        high
    } else {
        x
    }
}

/// Brings a wide intermediate result back into an `i64`.
fn narrow(wide: i128) -> (r: i64)
    ensures
        r as int == saturate(wide as int),
{
    if wide < i64::MIN as i128 {
        i64::MIN
    } else if wide > i64::MAX as i128 {
        i64::MAX
    } else {
        wide as i64
    }
}

/// `n / d` rounded toward zero.
fn div_toward_zero(n: i128, d: i64) -> (q: i128)
    requires
        d > 0,
    ensures
        q as int == quotient(n as int, d as int),
{
    n / (d as i128)
}

/// Saturating sum.
pub fn sat_add(a: i64, b: i64) -> (r: i64)
    ensures
        r as int == saturate(a + b),
{
    narrow(a as i128 + b as i128)
}

/// Saturating difference.
pub fn sat_sub(a: i64, b: i64) -> (r: i64)
    ensures
        r as int == saturate(a - b),
{
    narrow(a as i128 - b as i128)
}

/// Saturating fixed-point product.
pub fn sat_mul(a: i64, b: i64) -> (r: i64)
    ensures
        r as int == product(a as int, b as int),
{
    assert(-0x4000_0000_0000_0000_0000_0000_0000_0000 <= a * b
        <= 0x4000_0000_0000_0000_0000_0000_0000_0000) by (nonlinear_arith)
        requires
            -0x8000_0000_0000_0000 <= a <= 0x8000_0000_0000_0000,
            -0x8000_0000_0000_0000 <= b <= 0x8000_0000_0000_0000,
    ;
    let wide: i128 = (a as i128) * (b as i128);
    narrow(div_toward_zero(wide, SCALE))
}

/// Converts an angle from degrees to radians.
pub fn to_radians(degrees: i64) -> (r: i64)
    ensures
        r as int == radians(degrees as int),
{
    assert(degrees * RADIANS_PER_DEGREE == degrees * 17_453_293) by (nonlinear_arith)
        requires
            RADIANS_PER_DEGREE == 17_453_293,
    ;
    let wide: i128 = (degrees as i128) * (RADIANS_PER_DEGREE as i128);
    let q: i128 = div_toward_zero(wide, RADIAN_DIVISOR);
    q as i64
}

/// The smaller of two values.
pub fn min(a: i64, b: i64) -> (r: i64)
    ensures
        r as int == lesser(a as int, b as int),
{
    if a <= b {
        a
    } else {
        b
    }
}

/// Holds `x` between `low` and `high`.
pub fn clamp(x: i64, low: i64, high: i64) -> (r: i64)
    requires
        low <= high,
    ensures
        r as int == clamped(x as int, low as int, high as int),
{
    if x < low {
        low
    } else if x > high {
        high
    } else {
        x
    }
}

} // verus!
