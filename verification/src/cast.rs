//! Conversions between dual numbers and primitive numbers, and the named
//! constants.
//!
//! A dual number becomes a primitive by its real part alone: the derivative
//! is dropped. A primitive, a parsed text or a named constant of the scalar
//! type becomes a constant, with the scalar type's zero as its dual part.

use vstd::prelude::*;
use core::num::FpCategory;
use num_traits::{Float, FloatConst, FromPrimitive, NumCast, ToPrimitive, Zero};
use crate::calls::{
    ask_cast, ask_classify, ask_e, ask_frac_1_pi, ask_frac_1_sqrt_2, ask_frac_2_pi,
    ask_frac_2_sqrt_pi, ask_frac_pi_2, ask_frac_pi_3, ask_frac_pi_4, ask_frac_pi_6, ask_frac_pi_8,
    ask_from_i16, ask_from_i32, ask_from_i64, ask_from_i8, ask_from_isize, ask_from_u16,
    ask_from_u32, ask_from_u64, ask_from_u8, ask_from_usize, ask_infinity, ask_ln_10, ask_ln_2,
    ask_log10_e, ask_log2_e, ask_max_value, ask_min_positive_value, ask_min_value, ask_nan,
    ask_neg_infinity, ask_neg_zero, ask_pi, ask_sqrt_2, ask_to_i16, ask_to_i32, ask_to_i64,
    ask_to_i8, ask_to_isize, ask_to_u16, ask_to_u32, ask_to_u64, ask_to_u8, ask_to_usize,
    cast_gives, classify_gives, e_gives, frac_1_pi_gives, frac_1_sqrt_2_gives,
    frac_2_pi_gives, frac_2_sqrt_pi_gives, frac_pi_2_gives, frac_pi_3_gives, frac_pi_4_gives,
    frac_pi_6_gives, frac_pi_8_gives, from_i16_gives, from_i32_gives, from_i64_gives, from_i8_gives,
    from_isize_gives, from_u16_gives, from_u32_gives, from_u64_gives, from_u8_gives,
    from_usize_gives, infinity_gives, ln_10_gives, ln_2_gives, log10_e_gives, log2_e_gives,
    max_value_gives, min_positive_value_gives, min_value_gives, nan_gives, neg_infinity_gives,
    neg_zero_gives, pi_gives, sqrt_2_gives, to_i16_gives, to_i32_gives, to_i64_gives, to_i8_gives,
    to_isize_gives, to_u16_gives, to_u32_gives, to_u64_gives, to_u8_gives, to_usize_gives,
    zero_gives,
};
use crate::dual::DualNumber;

verus! {

/// `r` is the constant for the scalar that a conversion gave, or `None`
/// where it gave none.
pub open spec fn embedded<T: Zero>(value: Option<T>, r: Option<DualNumber<T>>) -> bool {
    match value {
        Some(v) => r matches Some(d) && d@.0 == v && zero_gives(d@.1),
        None => r is None,
    }
}

impl<T: Zero> DualNumber<T> {
    /// The constant for a scalar that a conversion gave, or `None` where it
    /// gave none.
    pub fn embed(value: Option<T>) -> (r: Option<Self>)
        ensures
            r is Some <==> value is Some,
            embedded(value, r),
    {
        match value {
            Some(v) => Some(DualNumber::from_real(v)),
            None => None,
        }
    }

    /// The constant for a scalar that a parser gave, or the parser's error
    /// as it is.
    pub fn embed_parsed<E>(value: Result<T, E>) -> (r: Result<Self, E>)
        ensures
            value matches Ok(v) ==> r matches Ok(d) && d@.0 == v && zero_gives(d@.1),
            value matches Err(e) ==> r == Err::<Self, E>(e),
    {
        match value {
            Ok(v) => Ok(DualNumber::from_real(v)),
            Err(e) => Err(e),
        }
    }
}

impl<T: NumCast + Zero> DualNumber<T> {
    /// The constant for `n`, or `None` where the scalar type cannot hold it.
    pub fn cast_from<N: ToPrimitive>(n: N) -> (r: Option<Self>)
        ensures
            exists|given: Option<T>|
                #[trigger] cast_gives(n, given) && embedded(given, r),
    {
        DualNumber::embed(ask_cast::<T, N>(n))
    }
}

impl<T: ToPrimitive> DualNumber<T> {
    /// The real part as an `isize`, or `None` where it does not fit.
    pub fn to_isize(&self) -> (r: Option<isize>)
        ensures
            to_isize_gives(self@.0, r),
    {
        ask_to_isize(self.real_ref())
    }

    /// The real part as an `i8`, or `None` where it does not fit.
    pub fn to_i8(&self) -> (r: Option<i8>)
        ensures
            to_i8_gives(self@.0, r),
    {
        ask_to_i8(self.real_ref())
    }

    /// The real part as an `i16`, or `None` where it does not fit.
    pub fn to_i16(&self) -> (r: Option<i16>)
        ensures
            to_i16_gives(self@.0, r),
    {
        ask_to_i16(self.real_ref())
    }

    /// The real part as an `i32`, or `None` where it does not fit.
    pub fn to_i32(&self) -> (r: Option<i32>)
        ensures
            to_i32_gives(self@.0, r),
    {
        ask_to_i32(self.real_ref())
    }

    /// The real part as an `i64`, or `None` where it does not fit.
    pub fn to_i64(&self) -> (r: Option<i64>)
        ensures
            to_i64_gives(self@.0, r),
    {
        ask_to_i64(self.real_ref())
    }

    /// The real part as an `usize`, or `None` where it does not fit.
    pub fn to_usize(&self) -> (r: Option<usize>)
        ensures
            to_usize_gives(self@.0, r),
    {
        ask_to_usize(self.real_ref())
    }

    /// The real part as an `u8`, or `None` where it does not fit.
    pub fn to_u8(&self) -> (r: Option<u8>)
        ensures
            to_u8_gives(self@.0, r),
    {
        ask_to_u8(self.real_ref())
    }

    /// The real part as an `u16`, or `None` where it does not fit.
    pub fn to_u16(&self) -> (r: Option<u16>)
        ensures
            to_u16_gives(self@.0, r),
    {
        ask_to_u16(self.real_ref())
    }

    /// The real part as an `u32`, or `None` where it does not fit.
    pub fn to_u32(&self) -> (r: Option<u32>)
        ensures
            to_u32_gives(self@.0, r),
    {
        ask_to_u32(self.real_ref())
    }

    /// The real part as an `u64`, or `None` where it does not fit.
    pub fn to_u64(&self) -> (r: Option<u64>)
        ensures
            to_u64_gives(self@.0, r),
    {
        ask_to_u64(self.real_ref())
    }
}

impl<T: FromPrimitive + Zero> DualNumber<T> {
    /// The constant for the `isize` `n`, or `None` where the scalar type cannot
    /// hold it.
    pub fn from_isize(n: isize) -> (r: Option<Self>)
        ensures
            exists|given: Option<T>|
                #[trigger] from_isize_gives(n, given) && embedded(given, r),
    {
        DualNumber::embed(ask_from_isize::<T>(n))
    }

    /// The constant for the `i8` `n`, or `None` where the scalar type cannot
    /// hold it.
    pub fn from_i8(n: i8) -> (r: Option<Self>)
        ensures
            exists|given: Option<T>|
                #[trigger] from_i8_gives(n, given) && embedded(given, r),
    {
        DualNumber::embed(ask_from_i8::<T>(n))
    }

    /// The constant for the `i16` `n`, or `None` where the scalar type cannot
    /// hold it.
    pub fn from_i16(n: i16) -> (r: Option<Self>)
        ensures
            exists|given: Option<T>|
                #[trigger] from_i16_gives(n, given) && embedded(given, r),
    {
        DualNumber::embed(ask_from_i16::<T>(n))
    }

    /// The constant for the `i32` `n`, or `None` where the scalar type cannot
    /// hold it.
    pub fn from_i32(n: i32) -> (r: Option<Self>)
        ensures
            exists|given: Option<T>|
                #[trigger] from_i32_gives(n, given) && embedded(given, r),
    {
        DualNumber::embed(ask_from_i32::<T>(n))
    }

    /// The constant for the `i64` `n`, or `None` where the scalar type cannot
    /// hold it.
    pub fn from_i64(n: i64) -> (r: Option<Self>)
        ensures
            exists|given: Option<T>|
                #[trigger] from_i64_gives(n, given) && embedded(given, r),
    {
        DualNumber::embed(ask_from_i64::<T>(n))
    }

    /// The constant for the `usize` `n`, or `None` where the scalar type cannot
    /// hold it.
    pub fn from_usize(n: usize) -> (r: Option<Self>)
        ensures
            exists|given: Option<T>|
                #[trigger] from_usize_gives(n, given) && embedded(given, r),
    {
        DualNumber::embed(ask_from_usize::<T>(n))
    }

    /// The constant for the `u8` `n`, or `None` where the scalar type cannot
    /// hold it.
    pub fn from_u8(n: u8) -> (r: Option<Self>)
        ensures
            exists|given: Option<T>|
                #[trigger] from_u8_gives(n, given) && embedded(given, r),
    {
        DualNumber::embed(ask_from_u8::<T>(n))
    }

    /// The constant for the `u16` `n`, or `None` where the scalar type cannot
    /// hold it.
    pub fn from_u16(n: u16) -> (r: Option<Self>)
        ensures
            exists|given: Option<T>|
                #[trigger] from_u16_gives(n, given) && embedded(given, r),
    {
        DualNumber::embed(ask_from_u16::<T>(n))
    }

    /// The constant for the `u32` `n`, or `None` where the scalar type cannot
    /// hold it.
    pub fn from_u32(n: u32) -> (r: Option<Self>)
        ensures
            exists|given: Option<T>|
                #[trigger] from_u32_gives(n, given) && embedded(given, r),
    {
        DualNumber::embed(ask_from_u32::<T>(n))
    }

    /// The constant for the `u64` `n`, or `None` where the scalar type cannot
    /// hold it.
    pub fn from_u64(n: u64) -> (r: Option<Self>)
        ensures
            exists|given: Option<T>|
                #[trigger] from_u64_gives(n, given) && embedded(given, r),
    {
        DualNumber::embed(ask_from_u64::<T>(n))
    }
}

impl<T: Float> DualNumber<T> {
    /// The category of the real part.
    pub fn classify(self) -> (r: FpCategory)
        ensures
            classify_gives(self@.0, r),
    {
        ask_classify(self.real_part())
    }

    /// The constant for a value that is not a number.
    pub fn nan() -> (r: Self)
        ensures
            nan_gives(r@.0),
            zero_gives(r@.1),
    {
        DualNumber::from_real(ask_nan())
    }

    /// The constant for positive infinity.
    pub fn infinity() -> (r: Self)
        ensures
            infinity_gives(r@.0),
            zero_gives(r@.1),
    {
        DualNumber::from_real(ask_infinity())
    }

    /// The constant for negative infinity.
    pub fn neg_infinity() -> (r: Self)
        ensures
            neg_infinity_gives(r@.0),
            zero_gives(r@.1),
    {
        DualNumber::from_real(ask_neg_infinity())
    }

    /// The constant for negative zero.
    pub fn neg_zero() -> (r: Self)
        ensures
            neg_zero_gives(r@.0),
            zero_gives(r@.1),
    {
        DualNumber::from_real(ask_neg_zero())
    }

    /// The constant for the smallest positive normal value.
    pub fn min_positive_value() -> (r: Self)
        ensures
            min_positive_value_gives(r@.0),
            zero_gives(r@.1),
    {
        DualNumber::from_real(ask_min_positive_value())
    }

    /// The constant for the smallest finite value.
    pub fn min_value() -> (r: Self)
        ensures
            min_value_gives(r@.0),
            zero_gives(r@.1),
    {
        DualNumber::from_real(ask_min_value())
    }

    /// The constant for the largest finite value.
    pub fn max_value() -> (r: Self)
        ensures
            max_value_gives(r@.0),
            zero_gives(r@.1),
    {
        DualNumber::from_real(ask_max_value())
    }
}

impl<T: FloatConst + Zero> DualNumber<T> {
    /// The constant for Euler's number.
    #[allow(non_snake_case)]
    pub fn E() -> (r: Self)
        ensures
            e_gives(r@.0),
            zero_gives(r@.1),
    {
        DualNumber::from_real(ask_e())
    }

    /// The constant for `1 / pi`.
    #[allow(non_snake_case)]
    pub fn FRAC_1_PI() -> (r: Self)
        ensures
            frac_1_pi_gives(r@.0),
            zero_gives(r@.1),
    {
        DualNumber::from_real(ask_frac_1_pi())
    }

    /// The constant for `1 / sqrt(2)`.
    #[allow(non_snake_case)]
    pub fn FRAC_1_SQRT_2() -> (r: Self)
        ensures
            frac_1_sqrt_2_gives(r@.0),
            zero_gives(r@.1),
    {
        DualNumber::from_real(ask_frac_1_sqrt_2())
    }

    /// The constant for `2 / pi`.
    #[allow(non_snake_case)]
    pub fn FRAC_2_PI() -> (r: Self)
        ensures
            frac_2_pi_gives(r@.0),
            zero_gives(r@.1),
    {
        DualNumber::from_real(ask_frac_2_pi())
    }

    /// The constant for `2 / sqrt(pi)`.
    #[allow(non_snake_case)]
    pub fn FRAC_2_SQRT_PI() -> (r: Self)
        ensures
            frac_2_sqrt_pi_gives(r@.0),
            zero_gives(r@.1),
    {
        DualNumber::from_real(ask_frac_2_sqrt_pi())
    }

    /// The constant for `pi / 2`.
    #[allow(non_snake_case)]
    pub fn FRAC_PI_2() -> (r: Self)
        ensures
            frac_pi_2_gives(r@.0),
            zero_gives(r@.1),
    {
        DualNumber::from_real(ask_frac_pi_2())
    }

    /// The constant for `pi / 3`.
    #[allow(non_snake_case)]
    pub fn FRAC_PI_3() -> (r: Self)
        ensures
            frac_pi_3_gives(r@.0),
            zero_gives(r@.1),
    {
        DualNumber::from_real(ask_frac_pi_3())
    }

    /// The constant for `pi / 4`.
    #[allow(non_snake_case)]
    pub fn FRAC_PI_4() -> (r: Self)
        ensures
            frac_pi_4_gives(r@.0),
            zero_gives(r@.1),
    {
        DualNumber::from_real(ask_frac_pi_4())
    }

    /// The constant for `pi / 6`.
    #[allow(non_snake_case)]
    pub fn FRAC_PI_6() -> (r: Self)
        ensures
            frac_pi_6_gives(r@.0),
            zero_gives(r@.1),
    {
        DualNumber::from_real(ask_frac_pi_6())
    }

    /// The constant for `pi / 8`.
    #[allow(non_snake_case)]
    pub fn FRAC_PI_8() -> (r: Self)
        ensures
            frac_pi_8_gives(r@.0),
            zero_gives(r@.1),
    {
        DualNumber::from_real(ask_frac_pi_8())
    }

    /// The constant for `ln(10)`.
    #[allow(non_snake_case)]
    pub fn LN_10() -> (r: Self)
        ensures
            ln_10_gives(r@.0),
            zero_gives(r@.1),
    {
        DualNumber::from_real(ask_ln_10())
    }

    /// The constant for `ln(2)`.
    #[allow(non_snake_case)]
    pub fn LN_2() -> (r: Self)
        ensures
            ln_2_gives(r@.0),
            zero_gives(r@.1),
    {
        DualNumber::from_real(ask_ln_2())
    }

    /// The constant for `log10(e)`.
    #[allow(non_snake_case)]
    pub fn LOG10_E() -> (r: Self)
        ensures
            log10_e_gives(r@.0),
            zero_gives(r@.1),
    {
        DualNumber::from_real(ask_log10_e())
    }

    /// The constant for `log2(e)`.
    #[allow(non_snake_case)]
    pub fn LOG2_E() -> (r: Self)
        ensures
            log2_e_gives(r@.0),
            zero_gives(r@.1),
    {
        DualNumber::from_real(ask_log2_e())
    }

    /// The constant for `pi`.
    #[allow(non_snake_case)]
    pub fn PI() -> (r: Self)
        ensures
            pi_gives(r@.0),
            zero_gives(r@.1),
    {
        DualNumber::from_real(ask_pi())
    }

    /// The constant for `sqrt(2)`.
    #[allow(non_snake_case)]
    pub fn SQRT_2() -> (r: Self)
        ensures
            sqrt_2_gives(r@.0),
            zero_gives(r@.1),
    {
        DualNumber::from_real(ask_sqrt_2())
    }
}

} // verus!
