//! IEEE-754 binary64 values carried as their bit patterns.
//!
//! Verus cannot reason about floating-point arithmetic, so every
//! floating-point quantity in this crate is carried as the `u64` bit pattern
//! of an IEEE-754 binary64 value. Each arithmetic operation is performed by
//! an outside crate behind a trusted wrapper whose result is an
//! uninterpreted function of the operand bits alone; the propagation theory
//! is then verified as an exact composition of those operations.
//!
//! Basic arithmetic relies on `rustc_apfloat`, a pure-software
//! implementation of correctly-rounded IEEE-754 binary64 arithmetic.
//! Transcendental functions rely on `libm`, a pure-Rust port of the musl
//! mathematical library. Comparisons, negation, the magnitude, the zero and
//! NaN tests and the Euclidean remainder are plain functions of the bit
//! patterns, defined and verified here.

use vstd::prelude::*;
use rustc_apfloat::Float;

verus! {

/// Bit pattern of the sum of two binary64 values.
pub uninterp spec fn spec_fadd(a: u64, b: u64) -> u64;

/// Bit pattern of the difference of two binary64 values.
pub uninterp spec fn spec_fsub(a: u64, b: u64) -> u64;

/// Bit pattern of the product of two binary64 values.
pub uninterp spec fn spec_fmul(a: u64, b: u64) -> u64;

/// Bit pattern of the quotient of two binary64 values.
pub uninterp spec fn spec_fdiv(a: u64, b: u64) -> u64;

/// Bit pattern of the sine of a binary64 value (radians).
pub uninterp spec fn spec_fsin(a: u64) -> u64;

/// Bit pattern of the cosine of a binary64 value (radians).
pub uninterp spec fn spec_fcos(a: u64) -> u64;

/// Bit pattern of the four-quadrant arctangent of `a / b`.
pub uninterp spec fn spec_fatan2(a: u64, b: u64) -> u64;

/// Bit pattern of the square root of a binary64 value.
pub uninterp spec fn spec_fsqrt(a: u64) -> u64;

/// Bit pattern of the first binary64 value raised to the second.
pub uninterp spec fn spec_fpow(a: u64, b: u64) -> u64;

/// Bit pattern of the truncated remainder of two binary64 values.
pub uninterp spec fn spec_frem(a: u64, b: u64) -> u64;

/// Bit pattern of the larger of two binary64 values.
pub uninterp spec fn spec_fmax(a: u64, b: u64) -> u64;

/// Bit pattern of the largest integral value at or below a binary64 value.
pub uninterp spec fn spec_ffloor(a: u64) -> u64;

/// Relies on `rustc_apfloat::ieee::Double`'s addition: the correctly rounded
/// IEEE-754 binary64 sum, a function of the operand bits alone.
#[verifier::external_body]
#[verifier::when_used_as_spec(spec_fadd)]
pub fn fadd(a: u64, b: u64) -> (r: u64)
    ensures
        r == spec_fadd(a, b),
{
    (rustc_apfloat::ieee::Double::from_bits(a as u128)
        + rustc_apfloat::ieee::Double::from_bits(b as u128))
        .value
        .to_bits() as u64
}

/// Relies on `rustc_apfloat::ieee::Double`'s subtraction: the correctly
/// rounded IEEE-754 binary64 difference, a function of the operand bits alone.
#[verifier::external_body]
#[verifier::when_used_as_spec(spec_fsub)]
pub fn fsub(a: u64, b: u64) -> (r: u64)
    ensures
        r == spec_fsub(a, b),
{
    (rustc_apfloat::ieee::Double::from_bits(a as u128)
        - rustc_apfloat::ieee::Double::from_bits(b as u128))
        .value
        .to_bits() as u64
}

/// Relies on `rustc_apfloat::ieee::Double`'s multiplication: the correctly
/// rounded IEEE-754 binary64 product, a function of the operand bits alone.
#[verifier::external_body]
#[verifier::when_used_as_spec(spec_fmul)]
pub fn fmul(a: u64, b: u64) -> (r: u64)
    ensures
        r == spec_fmul(a, b),
{
    (rustc_apfloat::ieee::Double::from_bits(a as u128)
        * rustc_apfloat::ieee::Double::from_bits(b as u128))
        .value
        .to_bits() as u64
}

/// Relies on `rustc_apfloat::ieee::Double`'s division: the correctly rounded
/// IEEE-754 binary64 quotient, a function of the operand bits alone.
#[verifier::external_body]
#[verifier::when_used_as_spec(spec_fdiv)]
pub fn fdiv(a: u64, b: u64) -> (r: u64)
    ensures
        r == spec_fdiv(a, b),
{
    (rustc_apfloat::ieee::Double::from_bits(a as u128)
        / rustc_apfloat::ieee::Double::from_bits(b as u128))
        .value
        .to_bits() as u64
}

/// Relies on `libm::sin`: the sine of a binary64 value, a function of the
/// argument bits alone.
#[verifier::external_body]
#[verifier::when_used_as_spec(spec_fsin)]
pub fn fsin(a: u64) -> (r: u64)
    ensures
        r == spec_fsin(a),
{
    libm::sin(bytemuck::cast(a)).to_bits()
}

/// Relies on `libm::cos`: the cosine of a binary64 value, a function of the
/// argument bits alone.
#[verifier::external_body]
#[verifier::when_used_as_spec(spec_fcos)]
pub fn fcos(a: u64) -> (r: u64)
    ensures
        r == spec_fcos(a),
{
    libm::cos(bytemuck::cast(a)).to_bits()
}

/// Relies on `libm::atan2`: the four-quadrant arctangent, a function of the
/// argument bits alone.
#[verifier::external_body]
#[verifier::when_used_as_spec(spec_fatan2)]
pub fn fatan2(a: u64, b: u64) -> (r: u64)
    ensures
        r == spec_fatan2(a, b),
{
    libm::atan2(bytemuck::cast(a), bytemuck::cast(b)).to_bits()
}

/// Relies on `libm::sqrt`: the correctly rounded square root, a function of
/// the argument bits alone.
#[verifier::external_body]
#[verifier::when_used_as_spec(spec_fsqrt)]
pub fn fsqrt(a: u64) -> (r: u64)
    ensures
        r == spec_fsqrt(a),
{
    libm::sqrt(bytemuck::cast(a)).to_bits()
}

/// Relies on `libm::pow`: the power function, a function of the argument
/// bits alone.
#[verifier::external_body]
#[verifier::when_used_as_spec(spec_fpow)]
pub fn fpow(a: u64, b: u64) -> (r: u64)
    ensures
        r == spec_fpow(a, b),
{
    libm::pow(bytemuck::cast(a), bytemuck::cast(b)).to_bits()
}

/// Relies on `libm::fmod`: the truncated remainder (the sign follows the
/// dividend), a function of the argument bits alone.
#[verifier::external_body]
#[verifier::when_used_as_spec(spec_frem)]
pub fn frem(a: u64, b: u64) -> (r: u64)
    ensures
        r == spec_frem(a, b),
{
    libm::fmod(bytemuck::cast(a), bytemuck::cast(b)).to_bits()
}

/// Relies on `libm::fmax`: the larger operand (a number whenever one operand
/// is a number), a function of the argument bits alone.
#[verifier::external_body]
#[verifier::when_used_as_spec(spec_fmax)]
pub fn fmax(a: u64, b: u64) -> (r: u64)
    ensures
        r == spec_fmax(a, b),
{
    libm::fmax(bytemuck::cast(a), bytemuck::cast(b)).to_bits()
}

/// Relies on `libm::floor`: the largest integral value at or below the
/// argument, a function of the argument bits alone.
#[verifier::external_body]
#[verifier::when_used_as_spec(spec_ffloor)]
pub fn ffloor(a: u64) -> (r: u64)
    ensures
        r == spec_ffloor(a),
{
    libm::floor(bytemuck::cast(a)).to_bits()
}

/// Sign bit of a binary64 bit pattern.
pub const SIGN_MASK: u64 = 0x8000_0000_0000_0000;

/// Everything but the sign bit of a binary64 bit pattern.
pub const MAGNITUDE_MASK: u64 = 0x7FFF_FFFF_FFFF_FFFF;

/// The exponent bits of a binary64 bit pattern.
pub const EXPONENT_MASK: u64 = 0x7FF0_0000_0000_0000;

/// The mantissa bits of a binary64 bit pattern.
pub const MANTISSA_MASK: u64 = 0x000F_FFFF_FFFF_FFFF;

/// IEEE-754 negation flips the sign bit of the bit pattern and nothing else.
pub open spec fn spec_fneg(a: u64) -> u64 {
    a ^ SIGN_MASK
}

/// IEEE-754 negation flips the sign bit of the bit pattern and nothing else.
#[verifier::when_used_as_spec(spec_fneg)]
pub fn fneg(a: u64) -> (r: u64)
    ensures
        r == spec_fneg(a),
{
    a ^ SIGN_MASK
}

/// The IEEE-754 magnitude clears the sign bit of the bit pattern and changes
/// nothing else.
pub open spec fn spec_fabs(a: u64) -> u64 {
    a & MAGNITUDE_MASK
}

/// The IEEE-754 magnitude clears the sign bit of the bit pattern and changes
/// nothing else.
#[verifier::when_used_as_spec(spec_fabs)]
pub fn fabs(a: u64) -> (r: u64)
    ensures
        r == spec_fabs(a),
{
    a & MAGNITUDE_MASK
}

/// Whether a bit pattern denotes an IEEE-754 zero; positive and negative
/// zero are the only bit patterns that compare equal to zero.
pub open spec fn spec_is_zero(a: u64) -> bool {
    a & MAGNITUDE_MASK == 0
}

/// Whether a bit pattern denotes an IEEE-754 zero; positive and negative
/// zero are the only bit patterns that compare equal to zero.
#[verifier::when_used_as_spec(spec_is_zero)]
pub fn is_zero(a: u64) -> (r: bool)
    ensures
        r == spec_is_zero(a),
{
    a & MAGNITUDE_MASK == 0
}

/// Whether the sign bit of a binary64 bit pattern is clear, as the standard
/// library's `is_sign_positive` reports it.
pub open spec fn spec_is_sign_positive(a: u64) -> bool {
    a & SIGN_MASK == 0
}

/// Whether the sign bit of a binary64 bit pattern is clear, as the standard
/// library's `is_sign_positive` reports it.
#[verifier::when_used_as_spec(spec_is_sign_positive)]
pub fn is_sign_positive(a: u64) -> (r: bool)
    ensures
        r == spec_is_sign_positive(a),
{
    a & SIGN_MASK == 0
}

/// Whether a bit pattern denotes a NaN: all exponent bits set and a nonzero
/// mantissa.
pub open spec fn spec_is_nan(a: u64) -> bool {
    a & EXPONENT_MASK == EXPONENT_MASK && a & MANTISSA_MASK != 0
}

/// Whether a bit pattern denotes a NaN: all exponent bits set and a nonzero
/// mantissa.
#[verifier::when_used_as_spec(spec_is_nan)]
pub fn is_nan(a: u64) -> (r: bool)
    ensures
        r == spec_is_nan(a),
{
    a & EXPONENT_MASK == EXPONENT_MASK && a & MANTISSA_MASK != 0
}

/// The IEEE-754 `<` on binary64 bit patterns: false when either operand is a
/// NaN, the two zeros compare equal, values of unequal sign order by sign,
/// and values of one sign follow the integer order of the patterns, reversed
/// on the negative side.
pub open spec fn spec_flt(a: u64, b: u64) -> bool {
    if spec_is_nan(a) || spec_is_nan(b) {
        false
    } else if spec_is_zero(a) && spec_is_zero(b) {
        false
    } else if spec_is_sign_positive(a) != spec_is_sign_positive(b) {
        !spec_is_sign_positive(a)
    } else if spec_is_sign_positive(a) {
        a < b
    } else {
        b < a
    }
}

/// The IEEE-754 `<` on binary64 bit patterns: false when either operand is a
/// NaN, the two zeros compare equal, values of unequal sign order by sign,
/// and values of one sign follow the integer order of the patterns, reversed
/// on the negative side.
#[verifier::when_used_as_spec(spec_flt)]
pub fn flt(a: u64, b: u64) -> (r: bool)
    ensures
        r == spec_flt(a, b),
{
    if is_nan(a) || is_nan(b) {
        false
    } else if is_zero(a) && is_zero(b) {
        false
    } else if is_sign_positive(a) != is_sign_positive(b) {
        !is_sign_positive(a)
    } else if is_sign_positive(a) {
        a < b
    } else {
        b < a
    }
}

/// The IEEE-754 `<=` on binary64 bit patterns: false when either operand is
/// a NaN, true on equal patterns and on the two zeros, and the strict order
/// of `spec_flt` otherwise.
pub open spec fn spec_fle(a: u64, b: u64) -> bool {
    if spec_is_nan(a) || spec_is_nan(b) {
        false
    } else if a == b || (spec_is_zero(a) && spec_is_zero(b)) {
        true
    } else if spec_is_sign_positive(a) != spec_is_sign_positive(b) {
        !spec_is_sign_positive(a)
    } else if spec_is_sign_positive(a) {
        a < b
    } else {
        b < a
    }
}

/// The IEEE-754 `<=` on binary64 bit patterns: false when either operand is
/// a NaN, true on equal patterns and on the two zeros, and the strict order
/// of `spec_flt` otherwise.
#[verifier::when_used_as_spec(spec_fle)]
pub fn fle(a: u64, b: u64) -> (r: bool)
    ensures
        r == spec_fle(a, b),
{
    if is_nan(a) || is_nan(b) {
        false
    } else if a == b || (is_zero(a) && is_zero(b)) {
        true
    } else if is_sign_positive(a) != is_sign_positive(b) {
        !is_sign_positive(a)
    } else if is_sign_positive(a) {
        a < b
    } else {
        b < a
    }
}

/// The Euclidean remainder as the standard library defines it for binary64
/// values: the truncated remainder, shifted up by the magnitude of the
/// divisor when negative.
pub open spec fn spec_frem_euclid(a: u64, b: u64) -> u64 {
    let r = frem(a, b);
    if flt(r, 0x0000_0000_0000_0000) {
        fadd(r, fabs(b))
    } else {
        r
    }
}

/// The Euclidean remainder as the standard library defines it for binary64
/// values: the truncated remainder, shifted up by the magnitude of the
/// divisor when negative.
#[verifier::when_used_as_spec(spec_frem_euclid)]
pub fn frem_euclid(a: u64, b: u64) -> (r: u64)
    ensures
        r == spec_frem_euclid(a, b),
{
    let r = frem(a, b);
    if flt(r, 0x0000_0000_0000_0000) {
        fadd(r, fabs(b))
    } else {
        r
    }
}

/// The all-zero bit pattern denotes an IEEE-754 zero.
pub proof fn lemma_zero_is_zero()
    ensures
        spec_is_zero(0x0000000000000000),
{
    assert(0x0000000000000000u64 & MAGNITUDE_MASK == 0) by (bit_vector);
}

} // verus!
