use dual_num::{DualError, DualNumber};
use num_traits::{Float, Num, NumCast, One, ToPrimitive, Zero};
use std::num::FpCategory;
use std::ops::{Add, Div, Mul, Neg, Rem, Sub};

/// A scalar that computes as `f64` does and takes no number by conversion.
#[derive(Debug, Clone, Copy, PartialEq, PartialOrd)]
struct Closed(f64);

impl Add for Closed {
    type Output = Closed;

    fn add(self, rhs: Closed) -> Closed {
        Closed(self.0 + rhs.0)
    }
}

impl Sub for Closed {
    type Output = Closed;

    fn sub(self, rhs: Closed) -> Closed {
        Closed(self.0 - rhs.0)
    }
}

impl Mul for Closed {
    type Output = Closed;

    fn mul(self, rhs: Closed) -> Closed {
        Closed(self.0 * rhs.0)
    }
}

impl Div for Closed {
    type Output = Closed;

    fn div(self, rhs: Closed) -> Closed {
        Closed(self.0 / rhs.0)
    }
}

impl Rem for Closed {
    type Output = Closed;

    fn rem(self, rhs: Closed) -> Closed {
        Closed(self.0 % rhs.0)
    }
}

impl Neg for Closed {
    type Output = Closed;

    fn neg(self) -> Closed {
        Closed(-self.0)
    }
}

impl Zero for Closed {
    fn zero() -> Closed {
        Closed(0.0)
    }

    fn is_zero(&self) -> bool {
        self.0 == 0.0
    }
}

impl One for Closed {
    fn one() -> Closed {
        Closed(1.0)
    }
}

impl Num for Closed {
    type FromStrRadixErr = <f64 as Num>::FromStrRadixErr;

    fn from_str_radix(text: &str, radix: u32) -> Result<Closed, Self::FromStrRadixErr> {
        match <f64 as Num>::from_str_radix(text, radix) {
            Ok(v) => Ok(Closed(v)),
            Err(e) => Err(e),
        }
    }
}

impl ToPrimitive for Closed {
    fn to_i64(&self) -> Option<i64> {
        self.0.to_i64()
    }

    fn to_u64(&self) -> Option<u64> {
        self.0.to_u64()
    }
}

impl NumCast for Closed {
    fn from<N: ToPrimitive>(_n: N) -> Option<Closed> {
        None
    }
}

impl Float for Closed {
    fn nan() -> Closed {
        Closed(f64::nan())
    }

    fn infinity() -> Closed {
        Closed(f64::infinity())
    }

    fn neg_infinity() -> Closed {
        Closed(f64::neg_infinity())
    }

    fn neg_zero() -> Closed {
        Closed(f64::neg_zero())
    }

    fn min_value() -> Closed {
        Closed(f64::min_value())
    }

    fn min_positive_value() -> Closed {
        Closed(f64::min_positive_value())
    }

    fn max_value() -> Closed {
        Closed(f64::max_value())
    }

    fn is_nan(self) -> bool {
        self.0.is_nan()
    }

    fn is_infinite(self) -> bool {
        self.0.is_infinite()
    }

    fn is_finite(self) -> bool {
        self.0.is_finite()
    }

    fn is_normal(self) -> bool {
        self.0.is_normal()
    }

    fn is_sign_positive(self) -> bool {
        self.0.is_sign_positive()
    }

    fn is_sign_negative(self) -> bool {
        self.0.is_sign_negative()
    }

    fn classify(self) -> FpCategory {
        self.0.classify()
    }

    fn floor(self) -> Closed {
        Closed(Float::floor(self.0))
    }

    fn ceil(self) -> Closed {
        Closed(Float::ceil(self.0))
    }

    fn round(self) -> Closed {
        Closed(Float::round(self.0))
    }

    fn trunc(self) -> Closed {
        Closed(Float::trunc(self.0))
    }

    fn fract(self) -> Closed {
        Closed(Float::fract(self.0))
    }

    fn abs(self) -> Closed {
        Closed(Float::abs(self.0))
    }

    fn signum(self) -> Closed {
        Closed(Float::signum(self.0))
    }

    fn recip(self) -> Closed {
        Closed(Float::recip(self.0))
    }

    fn sqrt(self) -> Closed {
        Closed(Float::sqrt(self.0))
    }

    fn exp(self) -> Closed {
        Closed(Float::exp(self.0))
    }

    fn exp2(self) -> Closed {
        Closed(Float::exp2(self.0))
    }

    fn ln(self) -> Closed {
        Closed(Float::ln(self.0))
    }

    fn log2(self) -> Closed {
        Closed(Float::log2(self.0))
    }

    fn log10(self) -> Closed {
        Closed(Float::log10(self.0))
    }

    fn cbrt(self) -> Closed {
        Closed(Float::cbrt(self.0))
    }

    fn sin(self) -> Closed {
        Closed(Float::sin(self.0))
    }

    fn cos(self) -> Closed {
        Closed(Float::cos(self.0))
    }

    fn tan(self) -> Closed {
        Closed(Float::tan(self.0))
    }

    fn asin(self) -> Closed {
        Closed(Float::asin(self.0))
    }

    fn acos(self) -> Closed {
        Closed(Float::acos(self.0))
    }

    fn atan(self) -> Closed {
        Closed(Float::atan(self.0))
    }

    fn exp_m1(self) -> Closed {
        Closed(Float::exp_m1(self.0))
    }

    fn ln_1p(self) -> Closed {
        Closed(Float::ln_1p(self.0))
    }

    fn sinh(self) -> Closed {
        Closed(Float::sinh(self.0))
    }

    fn cosh(self) -> Closed {
        Closed(Float::cosh(self.0))
    }

    fn tanh(self) -> Closed {
        Closed(Float::tanh(self.0))
    }

    fn asinh(self) -> Closed {
        Closed(Float::asinh(self.0))
    }

    fn acosh(self) -> Closed {
        Closed(Float::acosh(self.0))
    }

    fn atanh(self) -> Closed {
        Closed(Float::atanh(self.0))
    }

    fn powf(self, other: Closed) -> Closed {
        Closed(Float::powf(self.0, other.0))
    }

    fn log(self, other: Closed) -> Closed {
        Closed(Float::log(self.0, other.0))
    }

    fn max(self, other: Closed) -> Closed {
        Closed(Float::max(self.0, other.0))
    }

    fn min(self, other: Closed) -> Closed {
        Closed(Float::min(self.0, other.0))
    }

    fn abs_sub(self, other: Closed) -> Closed {
        Closed(Float::abs_sub(self.0, other.0))
    }

    fn hypot(self, other: Closed) -> Closed {
        Closed(Float::hypot(self.0, other.0))
    }

    fn atan2(self, other: Closed) -> Closed {
        Closed(Float::atan2(self.0, other.0))
    }

    fn mul_add(self, a: Closed, b: Closed) -> Closed {
        Closed(self.0.mul_add(a.0, b.0))
    }

    fn powi(self, n: i32) -> Closed {
        Closed(self.0.powi(n))
    }

    fn sin_cos(self) -> (Closed, Closed) {
        let (s, c) = self.0.sin_cos();
        (Closed(s), Closed(c))
    }

    fn integer_decode(self) -> (u64, i16, i8) {
        Float::integer_decode(self.0)
    }
}

#[test]
fn sqrt_fails_where_the_scalar_type_has_no_two() {
    let x = DualNumber::new(Closed(4.0), Closed(1.0));
    assert!(matches!(x.sqrt(), Err(DualError::Cast)));
}

#[test]
fn cbrt_fails_where_the_scalar_type_has_no_three() {
    let x = DualNumber::new(Closed(8.0), Closed(1.0));
    assert!(matches!(x.cbrt(), Err(DualError::Cast)));
}

#[test]
fn powi_fails_where_the_exponent_does_not_fit() {
    let x = DualNumber::new(Closed(2.0), Closed(1.0));
    assert!(matches!(x.powi(3), Err(DualError::Cast)));
}

#[test]
fn functions_without_coefficients_work_on_a_closed_scalar() {
    let x = DualNumber::new(Closed(0.0), Closed(3.0));
    assert_eq!(x.exp().into_tuple(), (Closed(1.0), Closed(3.0)));
    assert_eq!(x.sin().into_tuple(), (Closed(0.0), Closed(3.0)));
    assert!(DualNumber::<Closed>::cast_from(1u8).is_none());
}

#[test]
fn rules_apply_to_the_values_they_are_given() {
    let x = DualNumber::new(Closed(4.0), Closed(1.0));
    assert_eq!(x.sqrt_from(Closed(2.0), Closed(2.0)).into_tuple(), (Closed(2.0), Closed(0.25)));
    assert_eq!(
        x.powi_from(Closed(16.0), Closed(2.0), Closed(4.0)).into_tuple(),
        (Closed(16.0), Closed(8.0))
    );
}

#[test]
fn conversion_answer_decides_between_rule_and_failure() {
    let x = DualNumber::new(4.0f64, 1.0);
    assert!(matches!(x.sqrt_given(2.0, None), Err(DualError::Cast)));
    assert_eq!(x.sqrt_given(2.0, Some(2.0)).unwrap().into_tuple(), (2.0, 0.25));
    let y = DualNumber::new(8.0f64, 12.0);
    assert!(matches!(y.cbrt_given(2.0, None), Err(DualError::Cast)));
    assert_eq!(y.cbrt_given(2.0, Some(3.0)).unwrap().into_tuple(), (2.0, 1.0));
    let z = DualNumber::new(2.0f64, 1.0);
    assert!(matches!(z.powi_given(8.0, None, 4.0), Err(DualError::Cast)));
    assert_eq!(z.powi_given(8.0, Some(3.0), 4.0).unwrap().into_tuple(), (8.0, 12.0));
}
