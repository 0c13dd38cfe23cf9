//! Fixed-point helpers. A value `v: Fx` stands for the real number
//! `v / 65536`. Products and quotients are formed in 64 bits and cut back to
//! 32 bits by keeping the low 32 bits (two's complement).

use crate::types::Fx;
use vstd::prelude::*;

verus! {

/// Why a fixed-point operation has no result.
#[derive(Debug, Copy, Clone, PartialEq, Eq)]
pub enum FxError {
    /// The divisor was zero.
    DivisionByZero,
}

/// The value of the low 32 bits of `x`, read as a signed integer.
pub open spec fn wrap_i32(x: int) -> i32 {
    (((x + 0x8000_0000) % 0x1_0000_0000) - 0x8000_0000) as i32
}

/// The quotient of `a` by `b` rounded toward zero (`b != 0`). On a
/// non-negative dividend Euclidean division rounds toward zero for either
/// sign of the divisor; a negative dividend is mirrored.
pub open spec fn trunc_div(a: int, b: int) -> int {
    if a >= 0 {
        a / b
    } else {
        -((-a) / b)
    }
}

/// The remainder that goes with `trunc_div`: it has the sign of `a`.
pub open spec fn trunc_rem(a: int, b: int) -> int {
    if a >= 0 {
        a % b
    } else {
        -((-a) % b)
    }
}

/// Fixed-point product: `floor(a * b / 2^16)`, cut to 32 bits.
pub open spec fn mul_fx_spec(a: i32, b: i32) -> i32 {
    wrap_i32((a * b) / 65536)
}

/// Fixed-point quotient: `a * 2^16 / b` rounded toward zero, cut to 32 bits.
pub open spec fn div_fx_spec(a: i32, b: i32) -> i32 {
    wrap_i32(trunc_div(a * 65536, b as int))
}

/// Absolute value.
pub open spec fn abs_fx_spec(a: i32) -> int {
    if a < 0 {
        -a
    } else {
        a as int
    }
}

/// `value` limited to `[min, max]`; the lower bound wins when `min > max`.
pub open spec fn clamp_fx_spec(value: i32, min: i32, max: i32) -> i32 {
    if value < min {
        min
    } else if value > max {
        max
    } else {
        value
    }
}

/// A value that already fits in 32 bits is unchanged by the cut.
pub proof fn lemma_wrap_in_range(x: int)
    requires
        -0x8000_0000 <= x <= 0x7fff_ffff,
    ensures
        wrap_i32(x) == x,
{
}

/// The cut of a 64-bit value to 32 bits is what `wrap_i32` names.
pub proof fn lemma_cast_is_wrap(p: i64)
    ensures
        (p as i32) == wrap_i32(p as int),
{
    assert((p as i32) as int == ((p as int + 0x8000_0000) % 0x1_0000_0000) - 0x8000_0000)
        by (bit_vector);
}

/// Rounding toward zero by a positive divisor keeps the sign and never
/// increases the magnitude.
pub proof fn lemma_trunc_div_bounds(a: int, b: int)
    requires
        b > 0,
    ensures
        a >= 0 ==> 0 <= trunc_div(a, b) <= a,
        a <= 0 ==> a <= trunc_div(a, b) <= 0,
{
    let aa = if a >= 0 { a } else { -a };
    vstd::arithmetic::div_mod::lemma_div_pos_is_pos(aa, b);
    vstd::arithmetic::div_mod::lemma_div_is_ordered_by_denominator(aa, 1, b);
    vstd::arithmetic::div_mod::lemma_div_basics(aa);
}

/// Rounding toward zero never increases the magnitude, whatever the sign of
/// the divisor.
pub proof fn lemma_trunc_div_magnitude(a: int, b: int)
    requires
        b != 0,
    ensures
        a >= 0 ==> -a <= trunc_div(a, b) <= a,
        a <= 0 ==> a <= trunc_div(a, b) <= -a,
{
    let aa = if a >= 0 { a } else { -a };
    assert(-aa <= aa / b <= aa) by (nonlinear_arith)
        requires
            aa >= 0,
            b != 0,
    ;
}

/// A product of factors bounded by `bound_a` and `bound_b` is not cut: it is
/// `floor(a * b / 2^16)`, and bounded by the product of the bounds.
pub proof fn lemma_mul_fx_range(a: i32, b: i32, bound_a: int, bound_b: int)
    requires
        -bound_a <= a <= bound_a,
        -bound_b <= b <= bound_b,
        bound_a * bound_b <= 0x7fff_0000_0000,
    ensures
        mul_fx_spec(a, b) == (a * b) / 65536,
        -(bound_a * bound_b) <= a * b <= bound_a * bound_b,
        -((bound_a * bound_b) / 65536) - 1 <= mul_fx_spec(a, b) <= (bound_a * bound_b) / 65536,
{
    assert(-(bound_a * bound_b) <= a * b <= bound_a * bound_b) by (nonlinear_arith)
        requires
            -bound_a <= a <= bound_a,
            -bound_b <= b <= bound_b,
    ;
    lemma_wrap_in_range((a * b) / 65536);
}

/// A quotient by a positive divisor of at least 1.0 is not cut, keeps the
/// sign and is no larger than the dividend.
pub proof fn lemma_div_fx_range(a: i32, b: i32)
    requires
        b >= 65536,
    ensures
        div_fx_spec(a, b) == trunc_div(a * 65536, b as int),
        a >= 0 ==> 0 <= div_fx_spec(a, b) <= a,
        a <= 0 ==> a <= div_fx_spec(a, b) <= 0,
{
    lemma_trunc_div_bounds(a * 65536, b as int);
    let n = if a >= 0 { a * 65536 } else { -(a * 65536) };
    vstd::arithmetic::div_mod::lemma_div_is_ordered_by_denominator(n, 65536, b as int);
    lemma_wrap_in_range(trunc_div(a * 65536, b as int));
}

/// Multiplies two fixed-point numbers.
pub fn mul_fx(a: Fx, b: Fx) -> (r: Fx)
    ensures
        r == mul_fx_spec(a, b),
{
    assert(-0x8000_0000 * 0x8000_0000 <= (a as int) * (b as int) <= 0x8000_0000 * 0x8000_0000)
        by (nonlinear_arith)
        requires
            -0x8000_0000 <= a <= 0x7fff_ffff,
            -0x8000_0000 <= b <= 0x7fff_ffff,
    ;
    let wide: i64 = (a as i64) * (b as i64);
    let shifted: i64 = wide >> 16;
    assert(shifted == (wide as int) / 65536) by (bit_vector)
        requires
            shifted == wide >> 16,
    ;
    proof {
        lemma_cast_is_wrap(shifted);
    }
    #[verifier::truncate]
    (shifted as i32)
}

/// Divides two fixed-point numbers. The divisor must not be zero; see
/// [`checked_div_fx`] for the total form.
pub fn div_fx(a: Fx, b: Fx) -> (r: Fx)
    requires
        b != 0,
    ensures
        r == div_fx_spec(a, b),
{
    let wide: i64 = (a as i64) << 16;
    assert(wide == (a as int) * 65536) by (bit_vector)
        requires
            wide == (a as i64) << 16,
    ;
    let quotient: i64 = wide / (b as i64);
    proof {
        lemma_trunc_div_magnitude(wide as int, b as int);
    }
    assert(quotient == trunc_div(wide as int, b as int));
    proof {
        lemma_cast_is_wrap(quotient);
    }
    #[verifier::truncate]
    (quotient as i32)
}

/// Divides two fixed-point numbers, reporting a zero divisor as an error.
pub fn checked_div_fx(a: Fx, b: Fx) -> (r: Result<Fx, FxError>)
    ensures
        b == 0 <==> r is Err,
        b == 0 ==> r == Err::<i32, FxError>(FxError::DivisionByZero),
        b != 0 ==> r == Ok::<i32, FxError>(div_fx_spec(a, b)),
{
    if b == 0 {
        Err(FxError::DivisionByZero)
    } else {
        Ok(div_fx(a, b))
    }
}

/// Absolute value. `i32::MIN` has none in 32 bits.
pub fn abs_fx(a: Fx) -> (r: Fx)
    requires
        a > i32::MIN,
    ensures
        r == abs_fx_spec(a),
{
    if a < 0 {
        -a
    } else {
        a
    }
}

/// Clamps `value` between `min` and `max`.
pub fn clamp_fx(value: Fx, min: Fx, max: Fx) -> (r: Fx)
    ensures
        r == clamp_fx_spec(value, min, max),
{
    if value < min {
        min
    } else if value > max {
        max
    } else {
        value
    }
}

} // verus!
