//! The calls into `num_traits`. Each function named `.._of` hands one call
//! through; it is not verified, and nothing is claimed of what the scalar
//! type computes. Beside each stands a relation named `.._gives`, which is
//! known of a value only after the call gave it, and a verified function
//! named `ask_..`, which makes the call and says so.

use vstd::prelude::*;
use core::num::FpCategory;
use core::ops::Neg;
use vstd::std_specs::ops::NegSpec;
use num_traits::{
    Float, FloatConst, FromPrimitive, NumCast, One, Signed, ToPrimitive, Zero,
};

verus! {

/// `core::num::FpCategory`: the categories of a floating-point value.
#[verifier::external_type_specification]
#[verifier::external_body]
pub struct ExFpCategory(FpCategory);

/// `num_traits::Zero::zero`: the scalar type's additive identity. Nothing is
/// claimed of the value.
#[verifier::external_body]
pub(crate) fn zero_of<T: Zero>() -> T {
    T::zero()
}

/// `num_traits::One::one`: the scalar type's multiplicative identity. Nothing
/// is claimed of the value.
#[verifier::external_body]
pub(crate) fn one_of<T: One>() -> T {
    T::one()
}

/// `num_traits::Zero::is_zero`: whether `x` is the additive identity. Nothing
/// is claimed of the answer.
#[verifier::external_body]
pub(crate) fn is_zero_of<T: Zero>(x: &T) -> bool {
    x.is_zero()
}

/// `num_traits::Float::exp`: the exponential. Nothing is claimed of the value.
#[verifier::external_body]
pub(crate) fn exp_of<T: Float>(x: T) -> T {
    x.exp()
}

/// `num_traits::Float::exp2`: two to the power. Nothing is claimed of the
/// value.
#[verifier::external_body]
pub(crate) fn exp2_of<T: Float>(x: T) -> T {
    x.exp2()
}

/// `num_traits::Float::ln`: the natural logarithm. Nothing is claimed of the
/// value.
#[verifier::external_body]
pub(crate) fn ln_of<T: Float>(x: T) -> T {
    x.ln()
}

/// `num_traits::Float::log2`: the logarithm to base 2. Nothing is claimed of
/// the value.
#[verifier::external_body]
pub(crate) fn log2_of<T: Float>(x: T) -> T {
    x.log2()
}

/// `num_traits::Float::log10`: the logarithm to base 10. Nothing is claimed of
/// the value.
#[verifier::external_body]
pub(crate) fn log10_of<T: Float>(x: T) -> T {
    x.log10()
}

/// `num_traits::Float::sqrt`: the square root. Nothing is claimed of the value.
#[verifier::external_body]
pub(crate) fn sqrt_of<T: Float>(x: T) -> T {
    x.sqrt()
}

/// `num_traits::Float::cbrt`: the cube root. Nothing is claimed of the value.
#[verifier::external_body]
pub(crate) fn cbrt_of<T: Float>(x: T) -> T {
    x.cbrt()
}

/// `num_traits::Float::sin`: the sine. Nothing is claimed of the value.
#[verifier::external_body]
pub(crate) fn sin_of<T: Float>(x: T) -> T {
    x.sin()
}

/// `num_traits::Float::cos`: the cosine. Nothing is claimed of the value.
#[verifier::external_body]
pub(crate) fn cos_of<T: Float>(x: T) -> T {
    x.cos()
}

/// `num_traits::Float::tan`: the tangent. Nothing is claimed of the value.
#[verifier::external_body]
pub(crate) fn tan_of<T: Float>(x: T) -> T {
    x.tan()
}

/// `num_traits::Float::asin`: the arcsine. Nothing is claimed of the value.
#[verifier::external_body]
pub(crate) fn asin_of<T: Float>(x: T) -> T {
    x.asin()
}

/// `num_traits::Float::acos`: the arccosine. Nothing is claimed of the value.
#[verifier::external_body]
pub(crate) fn acos_of<T: Float>(x: T) -> T {
    x.acos()
}

/// `num_traits::Float::atan`: the arctangent. Nothing is claimed of the value.
#[verifier::external_body]
pub(crate) fn atan_of<T: Float>(x: T) -> T {
    x.atan()
}

/// `num_traits::Float::exp_m1`: `exp(x) - 1`. Nothing is claimed of the value.
#[verifier::external_body]
pub(crate) fn exp_m1_of<T: Float>(x: T) -> T {
    x.exp_m1()
}

/// `num_traits::Float::ln_1p`: `ln(1 + x)`. Nothing is claimed of the value.
#[verifier::external_body]
pub(crate) fn ln_1p_of<T: Float>(x: T) -> T {
    x.ln_1p()
}

/// `num_traits::Float::sinh`: the hyperbolic sine. Nothing is claimed of the
/// value.
#[verifier::external_body]
pub(crate) fn sinh_of<T: Float>(x: T) -> T {
    x.sinh()
}

/// `num_traits::Float::cosh`: the hyperbolic cosine. Nothing is claimed of the
/// value.
#[verifier::external_body]
pub(crate) fn cosh_of<T: Float>(x: T) -> T {
    x.cosh()
}

/// `num_traits::Float::tanh`: the hyperbolic tangent. Nothing is claimed of
/// the value.
#[verifier::external_body]
pub(crate) fn tanh_of<T: Float>(x: T) -> T {
    x.tanh()
}

/// `num_traits::Float::asinh`: the inverse hyperbolic sine. Nothing is claimed
/// of the value.
#[verifier::external_body]
pub(crate) fn asinh_of<T: Float>(x: T) -> T {
    x.asinh()
}

/// `num_traits::Float::acosh`: the inverse hyperbolic cosine. Nothing is
/// claimed of the value.
#[verifier::external_body]
pub(crate) fn acosh_of<T: Float>(x: T) -> T {
    x.acosh()
}

/// `num_traits::Float::atanh`: the inverse hyperbolic tangent. Nothing is
/// claimed of the value.
#[verifier::external_body]
pub(crate) fn atanh_of<T: Float>(x: T) -> T {
    x.atanh()
}

/// `num_traits::Float::fract`: the fractional part. Nothing is claimed of the
/// value.
#[verifier::external_body]
pub(crate) fn fract_of<T: Float>(x: T) -> T {
    x.fract()
}

/// `num_traits::Float::floor`: the largest integer not above `x`. Nothing is
/// claimed of the value.
#[verifier::external_body]
pub(crate) fn floor_of<T: Float>(x: T) -> T {
    x.floor()
}

/// `num_traits::Float::ceil`: the smallest integer not below `x`. Nothing is
/// claimed of the value.
#[verifier::external_body]
pub(crate) fn ceil_of<T: Float>(x: T) -> T {
    x.ceil()
}

/// `num_traits::Float::round`: the nearest integer. Nothing is claimed of the
/// value.
#[verifier::external_body]
pub(crate) fn round_of<T: Float>(x: T) -> T {
    x.round()
}

/// `num_traits::Float::trunc`: the integer part. Nothing is claimed of the
/// value.
#[verifier::external_body]
pub(crate) fn trunc_of<T: Float>(x: T) -> T {
    x.trunc()
}

/// `num_traits::Float::atan2`: the four-quadrant arctangent of `x / y`.
/// Nothing is claimed of the value.
#[verifier::external_body]
pub(crate) fn atan2_of<T: Float>(x: T, y: T) -> T {
    x.atan2(y)
}

/// `num_traits::Float::hypot`: the length of the hypotenuse over `x` and `y`.
/// Nothing is claimed of the value.
#[verifier::external_body]
pub(crate) fn hypot_of<T: Float>(x: T, y: T) -> T {
    x.hypot(y)
}

/// `num_traits::Float::powf`: `x` to the power `y`. Nothing is claimed of the
/// value.
#[verifier::external_body]
pub(crate) fn powf_of<T: Float>(x: T, y: T) -> T {
    x.powf(y)
}

/// `num_traits::Float::powi`: `x` to the integer power `n`. Nothing is claimed
/// of the value.
#[verifier::external_body]
pub(crate) fn powi_of<T: Float>(x: T, n: i32) -> T {
    x.powi(n)
}

/// `num_traits::Float::mul_add`: `x * a + b` rounded once. Nothing is claimed
/// of the value.
#[verifier::external_body]
pub(crate) fn mul_add_of<T: Float>(x: T, a: T, b: T) -> T {
    x.mul_add(a, b)
}

/// `num_traits::Float::sin_cos`: the sine and the cosine, in this order.
/// Nothing
/// is claimed of the values.
#[verifier::external_body]
pub(crate) fn sin_cos_of<T: Float>(x: T) -> (T, T) {
    x.sin_cos()
}

/// `num_traits::Float::is_nan`: whether `x` is not a number. Nothing is
/// claimed of the answer.
#[verifier::external_body]
pub(crate) fn is_nan_of<T: Float>(x: T) -> bool {
    x.is_nan()
}

/// `num_traits::Float::is_infinite`: whether `x` is infinite. Nothing is
/// claimed of the answer.
#[verifier::external_body]
pub(crate) fn is_infinite_of<T: Float>(x: T) -> bool {
    x.is_infinite()
}

/// `num_traits::Float::is_finite`: whether `x` is neither infinite nor not a
/// number. Nothing is claimed of the answer.
#[verifier::external_body]
pub(crate) fn is_finite_of<T: Float>(x: T) -> bool {
    x.is_finite()
}

/// `num_traits::Float::is_normal`: whether `x` is a normal number. Nothing is
/// claimed of the answer.
#[verifier::external_body]
pub(crate) fn is_normal_of<T: Float>(x: T) -> bool {
    x.is_normal()
}

/// `num_traits::Float::is_sign_positive`: whether the sign of `x` is positive.
/// Nothing is claimed of the answer.
#[verifier::external_body]
pub(crate) fn is_sign_positive_of<T: Float>(x: T) -> bool {
    x.is_sign_positive()
}

/// `num_traits::Float::is_sign_negative`: whether the sign of `x` is negative.
/// Nothing is claimed of the answer.
#[verifier::external_body]
pub(crate) fn is_sign_negative_of<T: Float>(x: T) -> bool {
    x.is_sign_negative()
}

/// `num_traits::Float::integer_decode`: mantissa, exponent and sign of `x`.
/// Nothing is claimed of the values.
#[verifier::external_body]
pub(crate) fn integer_decode_of<T: Float>(x: T) -> (u64, i16, i8) {
    x.integer_decode()
}

/// `num_traits::Signed::abs`: the absolute value. The integers negate a
/// negative `x` for it, so `x` must be one that may be negated. Nothing is
/// claimed of the value.
#[verifier::external_body]
pub(crate) fn abs_of<T: Signed + Neg<Output = T>>(x: &T) -> T
    requires
        (*x).neg_req(),
{
    x.abs()
}

/// `num_traits::Signed::signum`: the sign of `x` as a scalar. Nothing is
/// claimed of the value.
#[verifier::external_body]
pub(crate) fn signum_of<T: Signed>(x: &T) -> T {
    x.signum()
}

/// `num_traits::Signed::is_positive`: whether `x` is above zero. Nothing is
/// claimed of the answer.
#[verifier::external_body]
pub(crate) fn is_positive_of<T: Signed>(x: &T) -> bool {
    x.is_positive()
}

/// `num_traits::Signed::is_negative`: whether `x` is below zero. Nothing is
/// claimed of the answer.
#[verifier::external_body]
pub(crate) fn is_negative_of<T: Signed>(x: &T) -> bool {
    x.is_negative()
}

/// `num_traits::FloatConst::LN_2`: the natural logarithm of 2. Nothing is
/// claimed of the value.
#[verifier::external_body]
pub(crate) fn ln_2_of<T: FloatConst>() -> T {
    T::LN_2()
}

/// `num_traits::FloatConst::LN_10`: the natural logarithm of 10. Nothing is
/// claimed of the value.
#[verifier::external_body]
pub(crate) fn ln_10_of<T: FloatConst>() -> T {
    T::LN_10()
}

/// `num_traits::NumCast::from`: `n` as a scalar, or `None` where the scalar
/// type
/// cannot hold it. Nothing is claimed of the value.
#[verifier::external_body]
pub(crate) fn cast_of<T: NumCast, N: ToPrimitive>(n: N) -> Option<T> {
    T::from(n)
}

/// `num_traits::ToPrimitive::to_isize`: `x` as an `isize`, or `None` where it
/// does
/// not fit. Nothing is claimed of the value.
#[verifier::external_body]
pub(crate) fn to_isize_of<T: ToPrimitive>(x: &T) -> Option<isize> {
    x.to_isize()
}

/// `num_traits::ToPrimitive::to_i8`: `x` as an `i8`, or `None` where it does
/// not fit. Nothing is claimed of the value.
#[verifier::external_body]
pub(crate) fn to_i8_of<T: ToPrimitive>(x: &T) -> Option<i8> {
    x.to_i8()
}

/// `num_traits::ToPrimitive::to_i16`: `x` as an `i16`, or `None` where it does
/// not fit. Nothing is claimed of the value.
#[verifier::external_body]
pub(crate) fn to_i16_of<T: ToPrimitive>(x: &T) -> Option<i16> {
    x.to_i16()
}

/// `num_traits::ToPrimitive::to_i32`: `x` as an `i32`, or `None` where it does
/// not fit. Nothing is claimed of the value.
#[verifier::external_body]
pub(crate) fn to_i32_of<T: ToPrimitive>(x: &T) -> Option<i32> {
    x.to_i32()
}

/// `num_traits::ToPrimitive::to_i64`: `x` as an `i64`, or `None` where it does
/// not fit. Nothing is claimed of the value.
#[verifier::external_body]
pub(crate) fn to_i64_of<T: ToPrimitive>(x: &T) -> Option<i64> {
    x.to_i64()
}

/// `num_traits::ToPrimitive::to_usize`: `x` as an `usize`, or `None` where it
/// does
/// not fit. Nothing is claimed of the value.
#[verifier::external_body]
pub(crate) fn to_usize_of<T: ToPrimitive>(x: &T) -> Option<usize> {
    x.to_usize()
}

/// `num_traits::ToPrimitive::to_u8`: `x` as an `u8`, or `None` where it does
/// not fit. Nothing is claimed of the value.
#[verifier::external_body]
pub(crate) fn to_u8_of<T: ToPrimitive>(x: &T) -> Option<u8> {
    x.to_u8()
}

/// `num_traits::ToPrimitive::to_u16`: `x` as an `u16`, or `None` where it does
/// not fit. Nothing is claimed of the value.
#[verifier::external_body]
pub(crate) fn to_u16_of<T: ToPrimitive>(x: &T) -> Option<u16> {
    x.to_u16()
}

/// `num_traits::ToPrimitive::to_u32`: `x` as an `u32`, or `None` where it does
/// not fit. Nothing is claimed of the value.
#[verifier::external_body]
pub(crate) fn to_u32_of<T: ToPrimitive>(x: &T) -> Option<u32> {
    x.to_u32()
}

/// `num_traits::ToPrimitive::to_u64`: `x` as an `u64`, or `None` where it does
/// not fit. Nothing is claimed of the value.
#[verifier::external_body]
pub(crate) fn to_u64_of<T: ToPrimitive>(x: &T) -> Option<u64> {
    x.to_u64()
}

/// `num_traits::FromPrimitive::from_isize`: `n` as a scalar, or `None` where
/// the
/// scalar type cannot hold it. Nothing is claimed of the value.
#[verifier::external_body]
pub(crate) fn from_isize_of<T: FromPrimitive>(n: isize) -> Option<T> {
    T::from_isize(n)
}

/// `num_traits::FromPrimitive::from_i8`: `n` as a scalar, or `None` where the
/// scalar type cannot hold it. Nothing is claimed of the value.
#[verifier::external_body]
pub(crate) fn from_i8_of<T: FromPrimitive>(n: i8) -> Option<T> {
    T::from_i8(n)
}

/// `num_traits::FromPrimitive::from_i16`: `n` as a scalar, or `None` where the
/// scalar type cannot hold it. Nothing is claimed of the value.
#[verifier::external_body]
pub(crate) fn from_i16_of<T: FromPrimitive>(n: i16) -> Option<T> {
    T::from_i16(n)
}

/// `num_traits::FromPrimitive::from_i32`: `n` as a scalar, or `None` where the
/// scalar type cannot hold it. Nothing is claimed of the value.
#[verifier::external_body]
pub(crate) fn from_i32_of<T: FromPrimitive>(n: i32) -> Option<T> {
    T::from_i32(n)
}

/// `num_traits::FromPrimitive::from_i64`: `n` as a scalar, or `None` where the
/// scalar type cannot hold it. Nothing is claimed of the value.
#[verifier::external_body]
pub(crate) fn from_i64_of<T: FromPrimitive>(n: i64) -> Option<T> {
    T::from_i64(n)
}

/// `num_traits::FromPrimitive::from_usize`: `n` as a scalar, or `None` where
/// the
/// scalar type cannot hold it. Nothing is claimed of the value.
#[verifier::external_body]
pub(crate) fn from_usize_of<T: FromPrimitive>(n: usize) -> Option<T> {
    T::from_usize(n)
}

/// `num_traits::FromPrimitive::from_u8`: `n` as a scalar, or `None` where the
/// scalar type cannot hold it. Nothing is claimed of the value.
#[verifier::external_body]
pub(crate) fn from_u8_of<T: FromPrimitive>(n: u8) -> Option<T> {
    T::from_u8(n)
}

/// `num_traits::FromPrimitive::from_u16`: `n` as a scalar, or `None` where the
/// scalar type cannot hold it. Nothing is claimed of the value.
#[verifier::external_body]
pub(crate) fn from_u16_of<T: FromPrimitive>(n: u16) -> Option<T> {
    T::from_u16(n)
}

/// `num_traits::FromPrimitive::from_u32`: `n` as a scalar, or `None` where the
/// scalar type cannot hold it. Nothing is claimed of the value.
#[verifier::external_body]
pub(crate) fn from_u32_of<T: FromPrimitive>(n: u32) -> Option<T> {
    T::from_u32(n)
}

/// `num_traits::FromPrimitive::from_u64`: `n` as a scalar, or `None` where the
/// scalar type cannot hold it. Nothing is claimed of the value.
#[verifier::external_body]
pub(crate) fn from_u64_of<T: FromPrimitive>(n: u64) -> Option<T> {
    T::from_u64(n)
}

/// `num_traits::Float::nan`: a value that is not a number. Nothing is claimed
/// of the value.
#[verifier::external_body]
pub(crate) fn nan_of<T: Float>() -> T {
    T::nan()
}

/// `num_traits::Float::infinity`: positive infinity. Nothing is claimed of the
/// value.
#[verifier::external_body]
pub(crate) fn infinity_of<T: Float>() -> T {
    T::infinity()
}

/// `num_traits::Float::neg_infinity`: negative infinity. Nothing is claimed of
/// the value.
#[verifier::external_body]
pub(crate) fn neg_infinity_of<T: Float>() -> T {
    T::neg_infinity()
}

/// `num_traits::Float::neg_zero`: negative zero. Nothing is claimed of the
/// value.
#[verifier::external_body]
pub(crate) fn neg_zero_of<T: Float>() -> T {
    T::neg_zero()
}

/// `num_traits::Float::min_positive_value`: the smallest positive normal
/// value. Nothing is claimed of the value.
#[verifier::external_body]
pub(crate) fn min_positive_value_of<T: Float>() -> T {
    T::min_positive_value()
}

/// `num_traits::Float::min_value`: the smallest finite value. Nothing is
/// claimed of the value.
#[verifier::external_body]
pub(crate) fn min_value_of<T: Float>() -> T {
    T::min_value()
}

/// `num_traits::Float::max_value`: the largest finite value. Nothing is
/// claimed of the value.
#[verifier::external_body]
pub(crate) fn max_value_of<T: Float>() -> T {
    T::max_value()
}

/// `num_traits::FloatConst::E`: Euler's number. Nothing is claimed of the
/// value.
#[verifier::external_body]
pub(crate) fn e_of<T: FloatConst>() -> T {
    T::E()
}

/// `num_traits::FloatConst::FRAC_1_PI`: `1 / pi`. Nothing is claimed of the
/// value.
#[verifier::external_body]
pub(crate) fn frac_1_pi_of<T: FloatConst>() -> T {
    T::FRAC_1_PI()
}

/// `num_traits::FloatConst::FRAC_1_SQRT_2`: `1 / sqrt(2)`. Nothing is claimed
/// of the value.
#[verifier::external_body]
pub(crate) fn frac_1_sqrt_2_of<T: FloatConst>() -> T {
    T::FRAC_1_SQRT_2()
}

/// `num_traits::FloatConst::FRAC_2_PI`: `2 / pi`. Nothing is claimed of the
/// value.
#[verifier::external_body]
pub(crate) fn frac_2_pi_of<T: FloatConst>() -> T {
    T::FRAC_2_PI()
}

/// `num_traits::FloatConst::FRAC_2_SQRT_PI`: `2 / sqrt(pi)`. Nothing is
/// claimed of the value.
#[verifier::external_body]
pub(crate) fn frac_2_sqrt_pi_of<T: FloatConst>() -> T {
    T::FRAC_2_SQRT_PI()
}

/// `num_traits::FloatConst::FRAC_PI_2`: `pi / 2`. Nothing is claimed of the
/// value.
#[verifier::external_body]
pub(crate) fn frac_pi_2_of<T: FloatConst>() -> T {
    T::FRAC_PI_2()
}

/// `num_traits::FloatConst::FRAC_PI_3`: `pi / 3`. Nothing is claimed of the
/// value.
#[verifier::external_body]
pub(crate) fn frac_pi_3_of<T: FloatConst>() -> T {
    T::FRAC_PI_3()
}

/// `num_traits::FloatConst::FRAC_PI_4`: `pi / 4`. Nothing is claimed of the
/// value.
#[verifier::external_body]
pub(crate) fn frac_pi_4_of<T: FloatConst>() -> T {
    T::FRAC_PI_4()
}

/// `num_traits::FloatConst::FRAC_PI_6`: `pi / 6`. Nothing is claimed of the
/// value.
#[verifier::external_body]
pub(crate) fn frac_pi_6_of<T: FloatConst>() -> T {
    T::FRAC_PI_6()
}

/// `num_traits::FloatConst::FRAC_PI_8`: `pi / 8`. Nothing is claimed of the
/// value.
#[verifier::external_body]
pub(crate) fn frac_pi_8_of<T: FloatConst>() -> T {
    T::FRAC_PI_8()
}

/// `num_traits::FloatConst::LOG10_E`: `log10(e)`. Nothing is claimed of the
/// value.
#[verifier::external_body]
pub(crate) fn log10_e_of<T: FloatConst>() -> T {
    T::LOG10_E()
}

/// `num_traits::FloatConst::LOG2_E`: `log2(e)`. Nothing is claimed of the
/// value.
#[verifier::external_body]
pub(crate) fn log2_e_of<T: FloatConst>() -> T {
    T::LOG2_E()
}

/// `num_traits::FloatConst::PI`: `pi`. Nothing is claimed of the value.
#[verifier::external_body]
pub(crate) fn pi_of<T: FloatConst>() -> T {
    T::PI()
}

/// `num_traits::FloatConst::SQRT_2`: `sqrt(2)`. Nothing is claimed of the
/// value.
#[verifier::external_body]
pub(crate) fn sqrt_2_of<T: FloatConst>() -> T {
    T::SQRT_2()
}

/// `num_traits::Float::classify`: the category of `x`. Nothing is claimed of
/// the
/// answer.
#[verifier::external_body]
pub(crate) fn classify_of<T: Float>(x: T) -> FpCategory {
    x.classify()
}

/// `r` is what `Zero::zero` gave.
pub closed spec fn zero_gives<T: Zero>(r: T) -> bool {
    call_ensures(zero_of::<T>, (), r)
}

/// Asks `Zero::zero`, and says of the answer that it was given.
pub(crate) fn ask_zero<T: Zero>() -> (r: T)
    ensures
        zero_gives(r),
{
    let ask = zero_of::<T>;
    ask()
}

/// `r` is what `One::one` gave.
pub closed spec fn one_gives<T: One>(r: T) -> bool {
    call_ensures(one_of::<T>, (), r)
}

/// Asks `One::one`, and says of the answer that it was given.
pub(crate) fn ask_one<T: One>() -> (r: T)
    ensures
        one_gives(r),
{
    let ask = one_of::<T>;
    ask()
}

/// `r` is what `Zero::is_zero` gave on `x`.
pub closed spec fn is_zero_gives<T: Zero>(x: T, r: bool) -> bool {
    call_ensures(is_zero_of::<T>, (&x,), r)
}

/// Asks `Zero::is_zero` on `x`, and says of the answer that it was given.
pub(crate) fn ask_is_zero<T: Zero>(x: &T) -> (r: bool)
    ensures
        is_zero_gives(*x, r),
{
    let ask = is_zero_of::<T>;
    ask(x)
}

/// `r` is what `Float::is_nan` gave on `x`.
pub closed spec fn is_nan_gives<T: Float>(x: T, r: bool) -> bool {
    call_ensures(is_nan_of::<T>, (x,), r)
}

/// Asks `Float::is_nan` on `x`, and says of the answer that it was given.
pub(crate) fn ask_is_nan<T: Float>(x: T) -> (r: bool)
    ensures
        is_nan_gives(x, r),
{
    let ask = is_nan_of::<T>;
    ask(x)
}

/// `r` is what `Float::is_infinite` gave on `x`.
pub closed spec fn is_infinite_gives<T: Float>(x: T, r: bool) -> bool {
    call_ensures(is_infinite_of::<T>, (x,), r)
}

/// Asks `Float::is_infinite` on `x`, and says of the answer that it was given.
pub(crate) fn ask_is_infinite<T: Float>(x: T) -> (r: bool)
    ensures
        is_infinite_gives(x, r),
{
    let ask = is_infinite_of::<T>;
    ask(x)
}

/// `r` is what `Float::is_finite` gave on `x`.
pub closed spec fn is_finite_gives<T: Float>(x: T, r: bool) -> bool {
    call_ensures(is_finite_of::<T>, (x,), r)
}

/// Asks `Float::is_finite` on `x`, and says of the answer that it was given.
pub(crate) fn ask_is_finite<T: Float>(x: T) -> (r: bool)
    ensures
        is_finite_gives(x, r),
{
    let ask = is_finite_of::<T>;
    ask(x)
}

/// `r` is what `Float::is_normal` gave on `x`.
pub closed spec fn is_normal_gives<T: Float>(x: T, r: bool) -> bool {
    call_ensures(is_normal_of::<T>, (x,), r)
}

/// Asks `Float::is_normal` on `x`, and says of the answer that it was given.
pub(crate) fn ask_is_normal<T: Float>(x: T) -> (r: bool)
    ensures
        is_normal_gives(x, r),
{
    let ask = is_normal_of::<T>;
    ask(x)
}

/// `r` is what `Float::is_sign_positive` gave on `x`.
pub closed spec fn is_sign_positive_gives<T: Float>(x: T, r: bool) -> bool {
    call_ensures(is_sign_positive_of::<T>, (x,), r)
}

/// Asks `Float::is_sign_positive` on `x`, and says of the answer that it was given.
pub(crate) fn ask_is_sign_positive<T: Float>(x: T) -> (r: bool)
    ensures
        is_sign_positive_gives(x, r),
{
    let ask = is_sign_positive_of::<T>;
    ask(x)
}

/// `r` is what `Float::is_sign_negative` gave on `x`.
pub closed spec fn is_sign_negative_gives<T: Float>(x: T, r: bool) -> bool {
    call_ensures(is_sign_negative_of::<T>, (x,), r)
}

/// Asks `Float::is_sign_negative` on `x`, and says of the answer that it was given.
pub(crate) fn ask_is_sign_negative<T: Float>(x: T) -> (r: bool)
    ensures
        is_sign_negative_gives(x, r),
{
    let ask = is_sign_negative_of::<T>;
    ask(x)
}

/// `r` is what `Float::integer_decode` gave on `x`.
pub closed spec fn integer_decode_gives<T: Float>(x: T, r: (u64, i16, i8)) -> bool {
    call_ensures(integer_decode_of::<T>, (x,), r)
}

/// Asks `Float::integer_decode` on `x`, and says of the answer that it was given.
pub(crate) fn ask_integer_decode<T: Float>(x: T) -> (r: (u64, i16, i8))
    ensures
        integer_decode_gives(x, r),
{
    let ask = integer_decode_of::<T>;
    ask(x)
}

/// `r` is what `Float::classify` gave on `x`.
pub closed spec fn classify_gives<T: Float>(x: T, r: FpCategory) -> bool {
    call_ensures(classify_of::<T>, (x,), r)
}

/// Asks `Float::classify` on `x`, and says of the answer that it was given.
pub(crate) fn ask_classify<T: Float>(x: T) -> (r: FpCategory)
    ensures
        classify_gives(x, r),
{
    let ask = classify_of::<T>;
    ask(x)
}

/// `r` is what `Signed::signum` gave on `x`.
pub closed spec fn signum_gives<T: Signed>(x: T, r: T) -> bool {
    call_ensures(signum_of::<T>, (&x,), r)
}

/// Asks `Signed::signum` on `x`, and says of the answer that it was given.
pub(crate) fn ask_signum<T: Signed>(x: &T) -> (r: T)
    ensures
        signum_gives(*x, r),
{
    let ask = signum_of::<T>;
    ask(x)
}

/// `r` is what `Signed::is_positive` gave on `x`.
pub closed spec fn is_positive_gives<T: Signed>(x: T, r: bool) -> bool {
    call_ensures(is_positive_of::<T>, (&x,), r)
}

/// Asks `Signed::is_positive` on `x`, and says of the answer that it was given.
pub(crate) fn ask_is_positive<T: Signed>(x: &T) -> (r: bool)
    ensures
        is_positive_gives(*x, r),
{
    let ask = is_positive_of::<T>;
    ask(x)
}

/// `r` is what `Signed::is_negative` gave on `x`.
pub closed spec fn is_negative_gives<T: Signed>(x: T, r: bool) -> bool {
    call_ensures(is_negative_of::<T>, (&x,), r)
}

/// Asks `Signed::is_negative` on `x`, and says of the answer that it was given.
pub(crate) fn ask_is_negative<T: Signed>(x: &T) -> (r: bool)
    ensures
        is_negative_gives(*x, r),
{
    let ask = is_negative_of::<T>;
    ask(x)
}

/// `r` is what `NumCast::from` gave on `n`.
pub closed spec fn cast_gives<T: NumCast, N: ToPrimitive>(n: N, r: Option<T>) -> bool {
    call_ensures(cast_of::<T, N>, (n,), r)
}

/// Asks `NumCast::from` on `n`, and says of the answer that it was given.
pub(crate) fn ask_cast<T: NumCast, N: ToPrimitive>(n: N) -> (r: Option<T>)
    ensures
        cast_gives(n, r),
{
    let ask = cast_of::<T, N>;
    ask(n)
}

/// `r` is what `ToPrimitive::to_isize` gave on `x`.
pub closed spec fn to_isize_gives<T: ToPrimitive>(x: T, r: Option<isize>) -> bool {
    call_ensures(to_isize_of::<T>, (&x,), r)
}

/// Asks `ToPrimitive::to_isize` on `x`, and says of the answer that it was given.
pub(crate) fn ask_to_isize<T: ToPrimitive>(x: &T) -> (r: Option<isize>)
    ensures
        to_isize_gives(*x, r),
{
    let ask = to_isize_of::<T>;
    ask(x)
}

/// `r` is what `ToPrimitive::to_i8` gave on `x`.
pub closed spec fn to_i8_gives<T: ToPrimitive>(x: T, r: Option<i8>) -> bool {
    call_ensures(to_i8_of::<T>, (&x,), r)
}

/// Asks `ToPrimitive::to_i8` on `x`, and says of the answer that it was given.
pub(crate) fn ask_to_i8<T: ToPrimitive>(x: &T) -> (r: Option<i8>)
    ensures
        to_i8_gives(*x, r),
{
    let ask = to_i8_of::<T>;
    ask(x)
}

/// `r` is what `ToPrimitive::to_i16` gave on `x`.
pub closed spec fn to_i16_gives<T: ToPrimitive>(x: T, r: Option<i16>) -> bool {
    call_ensures(to_i16_of::<T>, (&x,), r)
}

/// Asks `ToPrimitive::to_i16` on `x`, and says of the answer that it was given.
pub(crate) fn ask_to_i16<T: ToPrimitive>(x: &T) -> (r: Option<i16>)
    ensures
        to_i16_gives(*x, r),
{
    let ask = to_i16_of::<T>;
    ask(x)
}

/// `r` is what `ToPrimitive::to_i32` gave on `x`.
pub closed spec fn to_i32_gives<T: ToPrimitive>(x: T, r: Option<i32>) -> bool {
    call_ensures(to_i32_of::<T>, (&x,), r)
}

/// Asks `ToPrimitive::to_i32` on `x`, and says of the answer that it was given.
pub(crate) fn ask_to_i32<T: ToPrimitive>(x: &T) -> (r: Option<i32>)
    ensures
        to_i32_gives(*x, r),
{
    let ask = to_i32_of::<T>;
    ask(x)
}

/// `r` is what `ToPrimitive::to_i64` gave on `x`.
pub closed spec fn to_i64_gives<T: ToPrimitive>(x: T, r: Option<i64>) -> bool {
    call_ensures(to_i64_of::<T>, (&x,), r)
}

/// Asks `ToPrimitive::to_i64` on `x`, and says of the answer that it was given.
pub(crate) fn ask_to_i64<T: ToPrimitive>(x: &T) -> (r: Option<i64>)
    ensures
        to_i64_gives(*x, r),
{
    let ask = to_i64_of::<T>;
    ask(x)
}

/// `r` is what `ToPrimitive::to_usize` gave on `x`.
pub closed spec fn to_usize_gives<T: ToPrimitive>(x: T, r: Option<usize>) -> bool {
    call_ensures(to_usize_of::<T>, (&x,), r)
}

/// Asks `ToPrimitive::to_usize` on `x`, and says of the answer that it was given.
pub(crate) fn ask_to_usize<T: ToPrimitive>(x: &T) -> (r: Option<usize>)
    ensures
        to_usize_gives(*x, r),
{
    let ask = to_usize_of::<T>;
    ask(x)
}

/// `r` is what `ToPrimitive::to_u8` gave on `x`.
pub closed spec fn to_u8_gives<T: ToPrimitive>(x: T, r: Option<u8>) -> bool {
    call_ensures(to_u8_of::<T>, (&x,), r)
}

/// Asks `ToPrimitive::to_u8` on `x`, and says of the answer that it was given.
pub(crate) fn ask_to_u8<T: ToPrimitive>(x: &T) -> (r: Option<u8>)
    ensures
        to_u8_gives(*x, r),
{
    let ask = to_u8_of::<T>;
    ask(x)
}

/// `r` is what `ToPrimitive::to_u16` gave on `x`.
pub closed spec fn to_u16_gives<T: ToPrimitive>(x: T, r: Option<u16>) -> bool {
    call_ensures(to_u16_of::<T>, (&x,), r)
}

/// Asks `ToPrimitive::to_u16` on `x`, and says of the answer that it was given.
pub(crate) fn ask_to_u16<T: ToPrimitive>(x: &T) -> (r: Option<u16>)
    ensures
        to_u16_gives(*x, r),
{
    let ask = to_u16_of::<T>;
    ask(x)
}

/// `r` is what `ToPrimitive::to_u32` gave on `x`.
pub closed spec fn to_u32_gives<T: ToPrimitive>(x: T, r: Option<u32>) -> bool {
    call_ensures(to_u32_of::<T>, (&x,), r)
}

/// Asks `ToPrimitive::to_u32` on `x`, and says of the answer that it was given.
pub(crate) fn ask_to_u32<T: ToPrimitive>(x: &T) -> (r: Option<u32>)
    ensures
        to_u32_gives(*x, r),
{
    let ask = to_u32_of::<T>;
    ask(x)
}

/// `r` is what `ToPrimitive::to_u64` gave on `x`.
pub closed spec fn to_u64_gives<T: ToPrimitive>(x: T, r: Option<u64>) -> bool {
    call_ensures(to_u64_of::<T>, (&x,), r)
}

/// Asks `ToPrimitive::to_u64` on `x`, and says of the answer that it was given.
pub(crate) fn ask_to_u64<T: ToPrimitive>(x: &T) -> (r: Option<u64>)
    ensures
        to_u64_gives(*x, r),
{
    let ask = to_u64_of::<T>;
    ask(x)
}

/// `r` is what `FromPrimitive::from_isize` gave on `n`.
pub closed spec fn from_isize_gives<T: FromPrimitive>(n: isize, r: Option<T>) -> bool {
    call_ensures(from_isize_of::<T>, (n,), r)
}

/// Asks `FromPrimitive::from_isize` on `n`, and says of the answer that it was given.
pub(crate) fn ask_from_isize<T: FromPrimitive>(n: isize) -> (r: Option<T>)
    ensures
        from_isize_gives(n, r),
{
    let ask = from_isize_of::<T>;
    ask(n)
}

/// `r` is what `FromPrimitive::from_i8` gave on `n`.
pub closed spec fn from_i8_gives<T: FromPrimitive>(n: i8, r: Option<T>) -> bool {
    call_ensures(from_i8_of::<T>, (n,), r)
}

/// Asks `FromPrimitive::from_i8` on `n`, and says of the answer that it was given.
pub(crate) fn ask_from_i8<T: FromPrimitive>(n: i8) -> (r: Option<T>)
    ensures
        from_i8_gives(n, r),
{
    let ask = from_i8_of::<T>;
    ask(n)
}

/// `r` is what `FromPrimitive::from_i16` gave on `n`.
pub closed spec fn from_i16_gives<T: FromPrimitive>(n: i16, r: Option<T>) -> bool {
    call_ensures(from_i16_of::<T>, (n,), r)
}

/// Asks `FromPrimitive::from_i16` on `n`, and says of the answer that it was given.
pub(crate) fn ask_from_i16<T: FromPrimitive>(n: i16) -> (r: Option<T>)
    ensures
        from_i16_gives(n, r),
{
    let ask = from_i16_of::<T>;
    ask(n)
}

/// `r` is what `FromPrimitive::from_i32` gave on `n`.
pub closed spec fn from_i32_gives<T: FromPrimitive>(n: i32, r: Option<T>) -> bool {
    call_ensures(from_i32_of::<T>, (n,), r)
}

/// Asks `FromPrimitive::from_i32` on `n`, and says of the answer that it was given.
pub(crate) fn ask_from_i32<T: FromPrimitive>(n: i32) -> (r: Option<T>)
    ensures
        from_i32_gives(n, r),
{
    let ask = from_i32_of::<T>;
    ask(n)
}

/// `r` is what `FromPrimitive::from_i64` gave on `n`.
pub closed spec fn from_i64_gives<T: FromPrimitive>(n: i64, r: Option<T>) -> bool {
    call_ensures(from_i64_of::<T>, (n,), r)
}

/// Asks `FromPrimitive::from_i64` on `n`, and says of the answer that it was given.
pub(crate) fn ask_from_i64<T: FromPrimitive>(n: i64) -> (r: Option<T>)
    ensures
        from_i64_gives(n, r),
{
    let ask = from_i64_of::<T>;
    ask(n)
}

/// `r` is what `FromPrimitive::from_usize` gave on `n`.
pub closed spec fn from_usize_gives<T: FromPrimitive>(n: usize, r: Option<T>) -> bool {
    call_ensures(from_usize_of::<T>, (n,), r)
}

/// Asks `FromPrimitive::from_usize` on `n`, and says of the answer that it was given.
pub(crate) fn ask_from_usize<T: FromPrimitive>(n: usize) -> (r: Option<T>)
    ensures
        from_usize_gives(n, r),
{
    let ask = from_usize_of::<T>;
    ask(n)
}

/// `r` is what `FromPrimitive::from_u8` gave on `n`.
pub closed spec fn from_u8_gives<T: FromPrimitive>(n: u8, r: Option<T>) -> bool {
    call_ensures(from_u8_of::<T>, (n,), r)
}

/// Asks `FromPrimitive::from_u8` on `n`, and says of the answer that it was given.
pub(crate) fn ask_from_u8<T: FromPrimitive>(n: u8) -> (r: Option<T>)
    ensures
        from_u8_gives(n, r),
{
    let ask = from_u8_of::<T>;
    ask(n)
}

/// `r` is what `FromPrimitive::from_u16` gave on `n`.
pub closed spec fn from_u16_gives<T: FromPrimitive>(n: u16, r: Option<T>) -> bool {
    call_ensures(from_u16_of::<T>, (n,), r)
}

/// Asks `FromPrimitive::from_u16` on `n`, and says of the answer that it was given.
pub(crate) fn ask_from_u16<T: FromPrimitive>(n: u16) -> (r: Option<T>)
    ensures
        from_u16_gives(n, r),
{
    let ask = from_u16_of::<T>;
    ask(n)
}

/// `r` is what `FromPrimitive::from_u32` gave on `n`.
pub closed spec fn from_u32_gives<T: FromPrimitive>(n: u32, r: Option<T>) -> bool {
    call_ensures(from_u32_of::<T>, (n,), r)
}

/// Asks `FromPrimitive::from_u32` on `n`, and says of the answer that it was given.
pub(crate) fn ask_from_u32<T: FromPrimitive>(n: u32) -> (r: Option<T>)
    ensures
        from_u32_gives(n, r),
{
    let ask = from_u32_of::<T>;
    ask(n)
}

/// `r` is what `FromPrimitive::from_u64` gave on `n`.
pub closed spec fn from_u64_gives<T: FromPrimitive>(n: u64, r: Option<T>) -> bool {
    call_ensures(from_u64_of::<T>, (n,), r)
}

/// Asks `FromPrimitive::from_u64` on `n`, and says of the answer that it was given.
pub(crate) fn ask_from_u64<T: FromPrimitive>(n: u64) -> (r: Option<T>)
    ensures
        from_u64_gives(n, r),
{
    let ask = from_u64_of::<T>;
    ask(n)
}

/// `r` is what `Float::nan` gave.
pub closed spec fn nan_gives<T: Float>(r: T) -> bool {
    call_ensures(nan_of::<T>, (), r)
}

/// Asks `Float::nan`, and says of the answer that it was given.
pub(crate) fn ask_nan<T: Float>() -> (r: T)
    ensures
        nan_gives(r),
{
    let ask = nan_of::<T>;
    ask()
}

/// `r` is what `Float::infinity` gave.
pub closed spec fn infinity_gives<T: Float>(r: T) -> bool {
    call_ensures(infinity_of::<T>, (), r)
}

/// Asks `Float::infinity`, and says of the answer that it was given.
pub(crate) fn ask_infinity<T: Float>() -> (r: T)
    ensures
        infinity_gives(r),
{
    let ask = infinity_of::<T>;
    ask()
}

/// `r` is what `Float::neg_infinity` gave.
pub closed spec fn neg_infinity_gives<T: Float>(r: T) -> bool {
    call_ensures(neg_infinity_of::<T>, (), r)
}

/// Asks `Float::neg_infinity`, and says of the answer that it was given.
pub(crate) fn ask_neg_infinity<T: Float>() -> (r: T)
    ensures
        neg_infinity_gives(r),
{
    let ask = neg_infinity_of::<T>;
    ask()
}

/// `r` is what `Float::neg_zero` gave.
pub closed spec fn neg_zero_gives<T: Float>(r: T) -> bool {
    call_ensures(neg_zero_of::<T>, (), r)
}

/// Asks `Float::neg_zero`, and says of the answer that it was given.
pub(crate) fn ask_neg_zero<T: Float>() -> (r: T)
    ensures
        neg_zero_gives(r),
{
    let ask = neg_zero_of::<T>;
    ask()
}

/// `r` is what `Float::min_positive_value` gave.
pub closed spec fn min_positive_value_gives<T: Float>(r: T) -> bool {
    call_ensures(min_positive_value_of::<T>, (), r)
}

/// Asks `Float::min_positive_value`, and says of the answer that it was given.
pub(crate) fn ask_min_positive_value<T: Float>() -> (r: T)
    ensures
        min_positive_value_gives(r),
{
    let ask = min_positive_value_of::<T>;
    ask()
}

/// `r` is what `Float::min_value` gave.
pub closed spec fn min_value_gives<T: Float>(r: T) -> bool {
    call_ensures(min_value_of::<T>, (), r)
}

/// Asks `Float::min_value`, and says of the answer that it was given.
pub(crate) fn ask_min_value<T: Float>() -> (r: T)
    ensures
        min_value_gives(r),
{
    let ask = min_value_of::<T>;
    ask()
}

/// `r` is what `Float::max_value` gave.
pub closed spec fn max_value_gives<T: Float>(r: T) -> bool {
    call_ensures(max_value_of::<T>, (), r)
}

/// Asks `Float::max_value`, and says of the answer that it was given.
pub(crate) fn ask_max_value<T: Float>() -> (r: T)
    ensures
        max_value_gives(r),
{
    let ask = max_value_of::<T>;
    ask()
}

/// `r` is what `FloatConst::E` gave.
pub closed spec fn e_gives<T: FloatConst>(r: T) -> bool {
    call_ensures(e_of::<T>, (), r)
}

/// Asks `FloatConst::E`, and says of the answer that it was given.
#[allow(non_snake_case)]
pub(crate) fn ask_e<T: FloatConst>() -> (r: T)
    ensures
        e_gives(r),
{
    let ask = e_of::<T>;
    ask()
}

/// `r` is what `FloatConst::FRAC_1_PI` gave.
pub closed spec fn frac_1_pi_gives<T: FloatConst>(r: T) -> bool {
    call_ensures(frac_1_pi_of::<T>, (), r)
}

/// Asks `FloatConst::FRAC_1_PI`, and says of the answer that it was given.
#[allow(non_snake_case)]
pub(crate) fn ask_frac_1_pi<T: FloatConst>() -> (r: T)
    ensures
        frac_1_pi_gives(r),
{
    let ask = frac_1_pi_of::<T>;
    ask()
}

/// `r` is what `FloatConst::FRAC_1_SQRT_2` gave.
pub closed spec fn frac_1_sqrt_2_gives<T: FloatConst>(r: T) -> bool {
    call_ensures(frac_1_sqrt_2_of::<T>, (), r)
}

/// Asks `FloatConst::FRAC_1_SQRT_2`, and says of the answer that it was given.
#[allow(non_snake_case)]
pub(crate) fn ask_frac_1_sqrt_2<T: FloatConst>() -> (r: T)
    ensures
        frac_1_sqrt_2_gives(r),
{
    let ask = frac_1_sqrt_2_of::<T>;
    ask()
}

/// `r` is what `FloatConst::FRAC_2_PI` gave.
pub closed spec fn frac_2_pi_gives<T: FloatConst>(r: T) -> bool {
    call_ensures(frac_2_pi_of::<T>, (), r)
}

/// Asks `FloatConst::FRAC_2_PI`, and says of the answer that it was given.
#[allow(non_snake_case)]
pub(crate) fn ask_frac_2_pi<T: FloatConst>() -> (r: T)
    ensures
        frac_2_pi_gives(r),
{
    let ask = frac_2_pi_of::<T>;
    ask()
}

/// `r` is what `FloatConst::FRAC_2_SQRT_PI` gave.
pub closed spec fn frac_2_sqrt_pi_gives<T: FloatConst>(r: T) -> bool {
    call_ensures(frac_2_sqrt_pi_of::<T>, (), r)
}

/// Asks `FloatConst::FRAC_2_SQRT_PI`, and says of the answer that it was given.
#[allow(non_snake_case)]
pub(crate) fn ask_frac_2_sqrt_pi<T: FloatConst>() -> (r: T)
    ensures
        frac_2_sqrt_pi_gives(r),
{
    let ask = frac_2_sqrt_pi_of::<T>;
    ask()
}

/// `r` is what `FloatConst::FRAC_PI_2` gave.
pub closed spec fn frac_pi_2_gives<T: FloatConst>(r: T) -> bool {
    call_ensures(frac_pi_2_of::<T>, (), r)
}

/// Asks `FloatConst::FRAC_PI_2`, and says of the answer that it was given.
#[allow(non_snake_case)]
pub(crate) fn ask_frac_pi_2<T: FloatConst>() -> (r: T)
    ensures
        frac_pi_2_gives(r),
{
    let ask = frac_pi_2_of::<T>;
    ask()
}

/// `r` is what `FloatConst::FRAC_PI_3` gave.
pub closed spec fn frac_pi_3_gives<T: FloatConst>(r: T) -> bool {
    call_ensures(frac_pi_3_of::<T>, (), r)
}

/// Asks `FloatConst::FRAC_PI_3`, and says of the answer that it was given.
#[allow(non_snake_case)]
pub(crate) fn ask_frac_pi_3<T: FloatConst>() -> (r: T)
    ensures
        frac_pi_3_gives(r),
{
    let ask = frac_pi_3_of::<T>;
    ask()
}

/// `r` is what `FloatConst::FRAC_PI_4` gave.
pub closed spec fn frac_pi_4_gives<T: FloatConst>(r: T) -> bool {
    call_ensures(frac_pi_4_of::<T>, (), r)
}

/// Asks `FloatConst::FRAC_PI_4`, and says of the answer that it was given.
#[allow(non_snake_case)]
pub(crate) fn ask_frac_pi_4<T: FloatConst>() -> (r: T)
    ensures
        frac_pi_4_gives(r),
{
    let ask = frac_pi_4_of::<T>;
    ask()
}

/// `r` is what `FloatConst::FRAC_PI_6` gave.
pub closed spec fn frac_pi_6_gives<T: FloatConst>(r: T) -> bool {
    call_ensures(frac_pi_6_of::<T>, (), r)
}

/// Asks `FloatConst::FRAC_PI_6`, and says of the answer that it was given.
#[allow(non_snake_case)]
pub(crate) fn ask_frac_pi_6<T: FloatConst>() -> (r: T)
    ensures
        frac_pi_6_gives(r),
{
    let ask = frac_pi_6_of::<T>;
    ask()
}

/// `r` is what `FloatConst::FRAC_PI_8` gave.
pub closed spec fn frac_pi_8_gives<T: FloatConst>(r: T) -> bool {
    call_ensures(frac_pi_8_of::<T>, (), r)
}

/// Asks `FloatConst::FRAC_PI_8`, and says of the answer that it was given.
#[allow(non_snake_case)]
pub(crate) fn ask_frac_pi_8<T: FloatConst>() -> (r: T)
    ensures
        frac_pi_8_gives(r),
{
    let ask = frac_pi_8_of::<T>;
    ask()
}

/// `r` is what `FloatConst::LN_10` gave.
pub closed spec fn ln_10_gives<T: FloatConst>(r: T) -> bool {
    call_ensures(ln_10_of::<T>, (), r)
}

/// Asks `FloatConst::LN_10`, and says of the answer that it was given.
#[allow(non_snake_case)]
pub(crate) fn ask_ln_10<T: FloatConst>() -> (r: T)
    ensures
        ln_10_gives(r),
{
    let ask = ln_10_of::<T>;
    ask()
}

/// `r` is what `FloatConst::LN_2` gave.
pub closed spec fn ln_2_gives<T: FloatConst>(r: T) -> bool {
    call_ensures(ln_2_of::<T>, (), r)
}

/// Asks `FloatConst::LN_2`, and says of the answer that it was given.
#[allow(non_snake_case)]
pub(crate) fn ask_ln_2<T: FloatConst>() -> (r: T)
    ensures
        ln_2_gives(r),
{
    let ask = ln_2_of::<T>;
    ask()
}

/// `r` is what `FloatConst::LOG10_E` gave.
pub closed spec fn log10_e_gives<T: FloatConst>(r: T) -> bool {
    call_ensures(log10_e_of::<T>, (), r)
}

/// Asks `FloatConst::LOG10_E`, and says of the answer that it was given.
#[allow(non_snake_case)]
pub(crate) fn ask_log10_e<T: FloatConst>() -> (r: T)
    ensures
        log10_e_gives(r),
{
    let ask = log10_e_of::<T>;
    ask()
}

/// `r` is what `FloatConst::LOG2_E` gave.
pub closed spec fn log2_e_gives<T: FloatConst>(r: T) -> bool {
    call_ensures(log2_e_of::<T>, (), r)
}

/// Asks `FloatConst::LOG2_E`, and says of the answer that it was given.
#[allow(non_snake_case)]
pub(crate) fn ask_log2_e<T: FloatConst>() -> (r: T)
    ensures
        log2_e_gives(r),
{
    let ask = log2_e_of::<T>;
    ask()
}

/// `r` is what `FloatConst::PI` gave.
pub closed spec fn pi_gives<T: FloatConst>(r: T) -> bool {
    call_ensures(pi_of::<T>, (), r)
}

/// Asks `FloatConst::PI`, and says of the answer that it was given.
#[allow(non_snake_case)]
pub(crate) fn ask_pi<T: FloatConst>() -> (r: T)
    ensures
        pi_gives(r),
{
    let ask = pi_of::<T>;
    ask()
}

/// `r` is what `FloatConst::SQRT_2` gave.
pub closed spec fn sqrt_2_gives<T: FloatConst>(r: T) -> bool {
    call_ensures(sqrt_2_of::<T>, (), r)
}

/// Asks `FloatConst::SQRT_2`, and says of the answer that it was given.
#[allow(non_snake_case)]
pub(crate) fn ask_sqrt_2<T: FloatConst>() -> (r: T)
    ensures
        sqrt_2_gives(r),
{
    let ask = sqrt_2_of::<T>;
    ask()
}

/// `r` is what `Float::exp` gave on `x`.
pub closed spec fn exp_gives<T: Float>(x: T, r: T) -> bool {
    call_ensures(exp_of::<T>, (x,), r)
}

/// Asks `Float::exp` on `x`, and says of the answer that it was given.
pub(crate) fn ask_exp<T: Float>(x: T) -> (r: T)
    ensures
        exp_gives(x, r),
{
    let ask = exp_of::<T>;
    ask(x)
}

/// `r` is what `Float::exp2` gave on `x`.
pub closed spec fn exp2_gives<T: Float>(x: T, r: T) -> bool {
    call_ensures(exp2_of::<T>, (x,), r)
}

/// Asks `Float::exp2` on `x`, and says of the answer that it was given.
pub(crate) fn ask_exp2<T: Float>(x: T) -> (r: T)
    ensures
        exp2_gives(x, r),
{
    let ask = exp2_of::<T>;
    ask(x)
}

/// `r` is what `Float::ln` gave on `x`.
pub closed spec fn ln_gives<T: Float>(x: T, r: T) -> bool {
    call_ensures(ln_of::<T>, (x,), r)
}

/// Asks `Float::ln` on `x`, and says of the answer that it was given.
pub(crate) fn ask_ln<T: Float>(x: T) -> (r: T)
    ensures
        ln_gives(x, r),
{
    let ask = ln_of::<T>;
    ask(x)
}

/// `r` is what `Float::log2` gave on `x`.
pub closed spec fn log2_gives<T: Float>(x: T, r: T) -> bool {
    call_ensures(log2_of::<T>, (x,), r)
}

/// Asks `Float::log2` on `x`, and says of the answer that it was given.
pub(crate) fn ask_log2<T: Float>(x: T) -> (r: T)
    ensures
        log2_gives(x, r),
{
    let ask = log2_of::<T>;
    ask(x)
}

/// `r` is what `Float::log10` gave on `x`.
pub closed spec fn log10_gives<T: Float>(x: T, r: T) -> bool {
    call_ensures(log10_of::<T>, (x,), r)
}

/// Asks `Float::log10` on `x`, and says of the answer that it was given.
pub(crate) fn ask_log10<T: Float>(x: T) -> (r: T)
    ensures
        log10_gives(x, r),
{
    let ask = log10_of::<T>;
    ask(x)
}

/// `r` is what `Float::sqrt` gave on `x`.
pub closed spec fn sqrt_gives<T: Float>(x: T, r: T) -> bool {
    call_ensures(sqrt_of::<T>, (x,), r)
}

/// Asks `Float::sqrt` on `x`, and says of the answer that it was given.
pub(crate) fn ask_sqrt<T: Float>(x: T) -> (r: T)
    ensures
        sqrt_gives(x, r),
{
    let ask = sqrt_of::<T>;
    ask(x)
}

/// `r` is what `Float::cbrt` gave on `x`.
pub closed spec fn cbrt_gives<T: Float>(x: T, r: T) -> bool {
    call_ensures(cbrt_of::<T>, (x,), r)
}

/// Asks `Float::cbrt` on `x`, and says of the answer that it was given.
pub(crate) fn ask_cbrt<T: Float>(x: T) -> (r: T)
    ensures
        cbrt_gives(x, r),
{
    let ask = cbrt_of::<T>;
    ask(x)
}

/// `r` is what `Float::sin` gave on `x`.
pub closed spec fn sin_gives<T: Float>(x: T, r: T) -> bool {
    call_ensures(sin_of::<T>, (x,), r)
}

/// Asks `Float::sin` on `x`, and says of the answer that it was given.
pub(crate) fn ask_sin<T: Float>(x: T) -> (r: T)
    ensures
        sin_gives(x, r),
{
    let ask = sin_of::<T>;
    ask(x)
}

/// `r` is what `Float::cos` gave on `x`.
pub closed spec fn cos_gives<T: Float>(x: T, r: T) -> bool {
    call_ensures(cos_of::<T>, (x,), r)
}

/// Asks `Float::cos` on `x`, and says of the answer that it was given.
pub(crate) fn ask_cos<T: Float>(x: T) -> (r: T)
    ensures
        cos_gives(x, r),
{
    let ask = cos_of::<T>;
    ask(x)
}

/// `r` is what `Float::tan` gave on `x`.
pub closed spec fn tan_gives<T: Float>(x: T, r: T) -> bool {
    call_ensures(tan_of::<T>, (x,), r)
}

/// Asks `Float::tan` on `x`, and says of the answer that it was given.
pub(crate) fn ask_tan<T: Float>(x: T) -> (r: T)
    ensures
        tan_gives(x, r),
{
    let ask = tan_of::<T>;
    ask(x)
}

/// `r` is what `Float::asin` gave on `x`.
pub closed spec fn asin_gives<T: Float>(x: T, r: T) -> bool {
    call_ensures(asin_of::<T>, (x,), r)
}

/// Asks `Float::asin` on `x`, and says of the answer that it was given.
pub(crate) fn ask_asin<T: Float>(x: T) -> (r: T)
    ensures
        asin_gives(x, r),
{
    let ask = asin_of::<T>;
    ask(x)
}

/// `r` is what `Float::acos` gave on `x`.
pub closed spec fn acos_gives<T: Float>(x: T, r: T) -> bool {
    call_ensures(acos_of::<T>, (x,), r)
}

/// Asks `Float::acos` on `x`, and says of the answer that it was given.
pub(crate) fn ask_acos<T: Float>(x: T) -> (r: T)
    ensures
        acos_gives(x, r),
{
    let ask = acos_of::<T>;
    ask(x)
}

/// `r` is what `Float::atan` gave on `x`.
pub closed spec fn atan_gives<T: Float>(x: T, r: T) -> bool {
    call_ensures(atan_of::<T>, (x,), r)
}

/// Asks `Float::atan` on `x`, and says of the answer that it was given.
pub(crate) fn ask_atan<T: Float>(x: T) -> (r: T)
    ensures
        atan_gives(x, r),
{
    let ask = atan_of::<T>;
    ask(x)
}

/// `r` is what `Float::exp_m1` gave on `x`.
pub closed spec fn exp_m1_gives<T: Float>(x: T, r: T) -> bool {
    call_ensures(exp_m1_of::<T>, (x,), r)
}

/// Asks `Float::exp_m1` on `x`, and says of the answer that it was given.
pub(crate) fn ask_exp_m1<T: Float>(x: T) -> (r: T)
    ensures
        exp_m1_gives(x, r),
{
    let ask = exp_m1_of::<T>;
    ask(x)
}

/// `r` is what `Float::ln_1p` gave on `x`.
pub closed spec fn ln_1p_gives<T: Float>(x: T, r: T) -> bool {
    call_ensures(ln_1p_of::<T>, (x,), r)
}

/// Asks `Float::ln_1p` on `x`, and says of the answer that it was given.
pub(crate) fn ask_ln_1p<T: Float>(x: T) -> (r: T)
    ensures
        ln_1p_gives(x, r),
{
    let ask = ln_1p_of::<T>;
    ask(x)
}

/// `r` is what `Float::sinh` gave on `x`.
pub closed spec fn sinh_gives<T: Float>(x: T, r: T) -> bool {
    call_ensures(sinh_of::<T>, (x,), r)
}

/// Asks `Float::sinh` on `x`, and says of the answer that it was given.
pub(crate) fn ask_sinh<T: Float>(x: T) -> (r: T)
    ensures
        sinh_gives(x, r),
{
    let ask = sinh_of::<T>;
    ask(x)
}

/// `r` is what `Float::cosh` gave on `x`.
pub closed spec fn cosh_gives<T: Float>(x: T, r: T) -> bool {
    call_ensures(cosh_of::<T>, (x,), r)
}

/// Asks `Float::cosh` on `x`, and says of the answer that it was given.
pub(crate) fn ask_cosh<T: Float>(x: T) -> (r: T)
    ensures
        cosh_gives(x, r),
{
    let ask = cosh_of::<T>;
    ask(x)
}

/// `r` is what `Float::tanh` gave on `x`.
pub closed spec fn tanh_gives<T: Float>(x: T, r: T) -> bool {
    call_ensures(tanh_of::<T>, (x,), r)
}

/// Asks `Float::tanh` on `x`, and says of the answer that it was given.
pub(crate) fn ask_tanh<T: Float>(x: T) -> (r: T)
    ensures
        tanh_gives(x, r),
{
    let ask = tanh_of::<T>;
    ask(x)
}

/// `r` is what `Float::asinh` gave on `x`.
pub closed spec fn asinh_gives<T: Float>(x: T, r: T) -> bool {
    call_ensures(asinh_of::<T>, (x,), r)
}

/// Asks `Float::asinh` on `x`, and says of the answer that it was given.
pub(crate) fn ask_asinh<T: Float>(x: T) -> (r: T)
    ensures
        asinh_gives(x, r),
{
    let ask = asinh_of::<T>;
    ask(x)
}

/// `r` is what `Float::acosh` gave on `x`.
pub closed spec fn acosh_gives<T: Float>(x: T, r: T) -> bool {
    call_ensures(acosh_of::<T>, (x,), r)
}

/// Asks `Float::acosh` on `x`, and says of the answer that it was given.
pub(crate) fn ask_acosh<T: Float>(x: T) -> (r: T)
    ensures
        acosh_gives(x, r),
{
    let ask = acosh_of::<T>;
    ask(x)
}

/// `r` is what `Float::atanh` gave on `x`.
pub closed spec fn atanh_gives<T: Float>(x: T, r: T) -> bool {
    call_ensures(atanh_of::<T>, (x,), r)
}

/// Asks `Float::atanh` on `x`, and says of the answer that it was given.
pub(crate) fn ask_atanh<T: Float>(x: T) -> (r: T)
    ensures
        atanh_gives(x, r),
{
    let ask = atanh_of::<T>;
    ask(x)
}

/// `r` is what `Float::fract` gave on `x`.
pub closed spec fn fract_gives<T: Float>(x: T, r: T) -> bool {
    call_ensures(fract_of::<T>, (x,), r)
}

/// Asks `Float::fract` on `x`, and says of the answer that it was given.
pub(crate) fn ask_fract<T: Float>(x: T) -> (r: T)
    ensures
        fract_gives(x, r),
{
    let ask = fract_of::<T>;
    ask(x)
}

/// `r` is what `Float::floor` gave on `x`.
pub closed spec fn floor_gives<T: Float>(x: T, r: T) -> bool {
    call_ensures(floor_of::<T>, (x,), r)
}

/// Asks `Float::floor` on `x`, and says of the answer that it was given.
pub(crate) fn ask_floor<T: Float>(x: T) -> (r: T)
    ensures
        floor_gives(x, r),
{
    let ask = floor_of::<T>;
    ask(x)
}

/// `r` is what `Float::ceil` gave on `x`.
pub closed spec fn ceil_gives<T: Float>(x: T, r: T) -> bool {
    call_ensures(ceil_of::<T>, (x,), r)
}

/// Asks `Float::ceil` on `x`, and says of the answer that it was given.
pub(crate) fn ask_ceil<T: Float>(x: T) -> (r: T)
    ensures
        ceil_gives(x, r),
{
    let ask = ceil_of::<T>;
    ask(x)
}

/// `r` is what `Float::round` gave on `x`.
pub closed spec fn round_gives<T: Float>(x: T, r: T) -> bool {
    call_ensures(round_of::<T>, (x,), r)
}

/// Asks `Float::round` on `x`, and says of the answer that it was given.
pub(crate) fn ask_round<T: Float>(x: T) -> (r: T)
    ensures
        round_gives(x, r),
{
    let ask = round_of::<T>;
    ask(x)
}

/// `r` is what `Float::trunc` gave on `x`.
pub closed spec fn trunc_gives<T: Float>(x: T, r: T) -> bool {
    call_ensures(trunc_of::<T>, (x,), r)
}

/// Asks `Float::trunc` on `x`, and says of the answer that it was given.
pub(crate) fn ask_trunc<T: Float>(x: T) -> (r: T)
    ensures
        trunc_gives(x, r),
{
    let ask = trunc_of::<T>;
    ask(x)
}

/// `r` is what `Float::atan2` gave on `x`, `y`.
pub closed spec fn atan2_gives<T: Float>(x: T, y: T, r: T) -> bool {
    call_ensures(atan2_of::<T>, (x, y), r)
}

/// Asks `Float::atan2` on `x`, `y`, and says of the answer that it was given.
pub(crate) fn ask_atan2<T: Float>(x: T, y: T) -> (r: T)
    ensures
        atan2_gives(x, y, r),
{
    let ask = atan2_of::<T>;
    ask(x, y)
}

/// `r` is what `Float::hypot` gave on `x`, `y`.
pub closed spec fn hypot_gives<T: Float>(x: T, y: T, r: T) -> bool {
    call_ensures(hypot_of::<T>, (x, y), r)
}

/// Asks `Float::hypot` on `x`, `y`, and says of the answer that it was given.
pub(crate) fn ask_hypot<T: Float>(x: T, y: T) -> (r: T)
    ensures
        hypot_gives(x, y, r),
{
    let ask = hypot_of::<T>;
    ask(x, y)
}

/// `r` is what `Float::powf` gave on `x`, `y`.
pub closed spec fn powf_gives<T: Float>(x: T, y: T, r: T) -> bool {
    call_ensures(powf_of::<T>, (x, y), r)
}

/// Asks `Float::powf` on `x`, `y`, and says of the answer that it was given.
pub(crate) fn ask_powf<T: Float>(x: T, y: T) -> (r: T)
    ensures
        powf_gives(x, y, r),
{
    let ask = powf_of::<T>;
    ask(x, y)
}

/// `r` is what `Float::powi` gave on `x`, `n`.
pub closed spec fn powi_gives<T: Float>(x: T, n: i32, r: T) -> bool {
    call_ensures(powi_of::<T>, (x, n), r)
}

/// Asks `Float::powi` on `x`, `n`, and says of the answer that it was given.
pub(crate) fn ask_powi<T: Float>(x: T, n: i32) -> (r: T)
    ensures
        powi_gives(x, n, r),
{
    let ask = powi_of::<T>;
    ask(x, n)
}

/// `r` is what `Float::mul_add` gave on `x`, `a`, `b`.
pub closed spec fn mul_add_gives<T: Float>(x: T, a: T, b: T, r: T) -> bool {
    call_ensures(mul_add_of::<T>, (x, a, b), r)
}

/// Asks `Float::mul_add` on `x`, `a`, `b`, and says of the answer that it was given.
pub(crate) fn ask_mul_add<T: Float>(x: T, a: T, b: T) -> (r: T)
    ensures
        mul_add_gives(x, a, b, r),
{
    let ask = mul_add_of::<T>;
    ask(x, a, b)
}

/// `r` is what `Float::sin_cos` gave on `x`.
pub closed spec fn sin_cos_gives<T: Float>(x: T, r: (T, T)) -> bool {
    call_ensures(sin_cos_of::<T>, (x,), r)
}

/// Asks `Float::sin_cos` on `x`, and says of the answer that it was given.
pub(crate) fn ask_sin_cos<T: Float>(x: T) -> (r: (T, T))
    ensures
        sin_cos_gives(x, r),
{
    let ask = sin_cos_of::<T>;
    ask(x)
}

/// `r` is what `Signed::abs` gave on `x`.
pub closed spec fn abs_gives<T: Signed + Neg<Output = T>>(x: T, r: T) -> bool {
    call_ensures(abs_of::<T>, (&x,), r)
}

/// Asks `Signed::abs` on `x`, and says of the answer that it was given.
pub(crate) fn ask_abs<T: Signed + Neg<Output = T>>(x: &T) -> (r: T)
    requires
        (*x).neg_req(),
    ensures
        abs_gives(*x, r),
{
    let ask = abs_of::<T>;
    ask(x)
}

} // verus!
