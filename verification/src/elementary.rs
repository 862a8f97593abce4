//! The elementary functions on dual numbers.
//!
//! The real part of each result is what the scalar type computes for the
//! real part of the operand. The dual part is the derivative of the function
//! there, times the operand's own dual part. Each function comes twice: the
//! one named `.._from` takes the scalar type's values as arguments and
//! applies the rule to them; the other asks the scalar type and hands what it
//! got to the first.

use vstd::prelude::*;
use core::ops::{Add, Div, Mul, Neg, Sub};
use num_traits::{Float, FloatConst, Signed, Zero};
use vstd::std_specs::cmp::PartialOrdSpec;
use vstd::std_specs::ops::{AddSpec, DivSpec, MulSpec, NegSpec, SubSpec};
use crate::calls::{
    abs_gives, acos_gives, acosh_gives, asin_gives, asinh_gives, ask_abs, ask_acos, ask_acosh,
    ask_asin, ask_asinh, ask_atan, ask_atan2, ask_atanh, ask_cast, ask_cbrt, ask_ceil, ask_cos,
    ask_cosh, ask_exp, ask_exp2, ask_exp_m1, ask_floor, ask_fract, ask_hypot, ask_integer_decode,
    ask_is_finite, ask_is_infinite, ask_is_nan, ask_is_negative, ask_is_normal, ask_is_positive,
    ask_is_sign_negative, ask_is_sign_positive, ask_ln, ask_ln_10, ask_ln_1p, ask_ln_2, ask_log10,
    ask_log2, ask_mul_add, ask_one, ask_powf, ask_powi, ask_round, ask_signum, ask_sin, ask_sin_cos,
    ask_sinh, ask_sqrt, ask_tan, ask_tanh, ask_trunc, ask_zero, atan2_gives, atan_gives,
    atanh_gives, cast_gives, cbrt_gives, ceil_gives, cos_gives, cosh_gives, exp2_gives, exp_gives,
    exp_m1_gives, floor_gives, fract_gives, hypot_gives, integer_decode_gives, is_finite_gives,
    is_infinite_gives, is_nan_gives, is_negative_gives, is_normal_gives, is_positive_gives,
    is_sign_negative_gives, is_sign_positive_gives, ln_10_gives, ln_1p_gives, ln_2_gives, ln_gives,
    log10_gives, log2_gives, mul_add_gives, one_gives, powf_gives, powi_gives, round_gives,
    signum_gives, sin_cos_gives, sin_gives, sinh_gives, sqrt_gives, tan_gives, tanh_gives,
    trunc_gives, zero_gives,
};
use crate::dual::DualNumber;
use crate::order::greater;
use crate::ring::{
    difference_defined, difference_gives, quotient, quotient_defined, quotient_gives, DualError,
};
use crate::rules::{
    abs_defined, abs_rule, abs_sub_rule, acos_defined, acos_rule, acosh_defined, acosh_rule,
    asin_defined, asin_rule, asinh_defined, asinh_rule, atan2_defined, atan2_rule, atan_defined,
    atan_rule, atanh_defined, atanh_rule, cbrt_defined, cbrt_rule, cos_defined, cos_rule,
    cosh_defined, cosh_rule, exp2_defined, exp2_rule, exp_defined, exp_m1_defined, exp_m1_rule,
    exp_rule, fract_rule, hypot_defined, hypot_rule, ln_1p_defined, ln_1p_rule, ln_defined, ln_rule,
    log10_defined, log10_rule, log2_defined, log2_rule, log_defined, log_rule, mul_add_defined,
    mul_add_rule, powf_defined, powf_rule, powi_defined, powi_rule, sin_defined, sin_rule,
    sinh_defined, sinh_rule, sqrt_defined, sqrt_rule, step_rule, tan_defined, tan_rule,
    tanh_defined, tanh_rule,
};
use crate::scalar::{diff_of, neg_of, prod_of, quot_of, sum_of, Field};

verus! {

/// Whether one of two answers is yes.
pub fn either(a: bool, b: bool) -> (r: bool)
    ensures
        r == (a || b),
{
    a || b
}

/// Whether both of two answers are yes.
pub fn both(a: bool, b: bool) -> (r: bool)
    ensures
        r == (a && b),
{
    a && b
}

impl<T: Field> DualNumber<T> {
    /// The square root, from what the scalar type computed: `v` for
    /// `sqrt(real)` and `two` for the scalar 2.
    pub fn sqrt_from(self, v: T, two: T) -> (r: Self)
        requires
            sqrt_defined(self@, v, two),
        ensures
            r@.0 == v,
            exists|t1: T|
                #[trigger] prod_of(two, v, t1)
                && #[trigger] quot_of(self@.1, t1, r@.1),
            T::obeys_div_spec() && T::obeys_mul_spec() ==> r@ == sqrt_rule(self@, v, two),
    {
        let du = self.dual();
        let t1 = two.mul(v);
        assert(prod_of(two, v, t1));
        let t2 = du.div(t1);
        assert(quot_of(du, t1, t2));
        DualNumber::new(v, t2)
    }

    /// The cube root, from what the scalar type computed: `v` for `cbrt(real)`
    /// and `three` for the scalar 3.
    pub fn cbrt_from(self, v: T, three: T) -> (r: Self)
        requires
            cbrt_defined(self@, v, three),
        ensures
            r@.0 == v,
            exists|t1: T, t2: T|
                #[trigger] prod_of(three, v, t1)
                && #[trigger] prod_of(t1, v, t2)
                && #[trigger] quot_of(self@.1, t2, r@.1),
            T::obeys_div_spec() && T::obeys_mul_spec() ==> r@ == cbrt_rule(self@, v, three),
    {
        let du = self.dual();
        let t1 = three.mul(v);
        assert(prod_of(three, v, t1));
        let t2 = t1.mul(v);
        assert(prod_of(t1, v, t2));
        let t3 = du.div(t2);
        assert(quot_of(du, t2, t3));
        DualNumber::new(v, t3)
    }

    /// The exponential, from what the scalar type computed: `v` for
    /// `exp(real)`.
    pub fn exp_from(self, v: T) -> (r: Self)
        requires
            exp_defined(self@, v),
        ensures
            r@.0 == v,
            prod_of(self@.1, v, r@.1),
            T::obeys_mul_spec() ==> r@ == exp_rule(self@, v),
    {
        let du = self.dual();
        let t1 = du.mul(v);
        assert(prod_of(du, v, t1));
        DualNumber::new(v, t1)
    }

    /// Two to the power, from what the scalar type computed: `v` for
    /// `exp2(real)` and `ln2` for `ln(2)`.
    pub fn exp2_from(self, v: T, ln2: T) -> (r: Self)
        requires
            exp2_defined(self@, v, ln2),
        ensures
            r@.0 == v,
            exists|t1: T|
                #[trigger] prod_of(self@.1, ln2, t1)
                && #[trigger] prod_of(t1, v, r@.1),
            T::obeys_mul_spec() ==> r@ == exp2_rule(self@, v, ln2),
    {
        let du = self.dual();
        let t1 = du.mul(ln2);
        assert(prod_of(du, ln2, t1));
        let t2 = t1.mul(v);
        assert(prod_of(t1, v, t2));
        DualNumber::new(v, t2)
    }

    /// The natural logarithm, from what the scalar type computed: `v` for
    /// `ln(real)`.
    pub fn ln_from(self, v: T) -> (r: Self)
        requires
            ln_defined(self@, v),
        ensures
            r@.0 == v,
            quot_of(self@.1, self@.0, r@.1),
            T::obeys_div_spec() ==> r@ == ln_rule(self@, v),
    {
        let re = self.real_part();
        let du = self.dual();
        let t1 = du.div(re);
        assert(quot_of(du, re, t1));
        DualNumber::new(v, t1)
    }

    /// The logarithm to base 2, from what the scalar type computed: `v` for
    /// `log2(real)` and `ln2` for `ln(2)`.
    pub fn log2_from(self, v: T, ln2: T) -> (r: Self)
        requires
            log2_defined(self@, v, ln2),
        ensures
            r@.0 == v,
            exists|t1: T|
                #[trigger] prod_of(self@.0, ln2, t1)
                && #[trigger] quot_of(self@.1, t1, r@.1),
            T::obeys_div_spec() && T::obeys_mul_spec() ==> r@ == log2_rule(self@, v, ln2),
    {
        let re = self.real_part();
        let du = self.dual();
        let t1 = re.mul(ln2);
        assert(prod_of(re, ln2, t1));
        let t2 = du.div(t1);
        assert(quot_of(du, t1, t2));
        DualNumber::new(v, t2)
    }

    /// The logarithm to base 10, from what the scalar type computed: `v` for
    /// `log10(real)` and `ln10` for `ln(10)`.
    pub fn log10_from(self, v: T, ln10: T) -> (r: Self)
        requires
            log10_defined(self@, v, ln10),
        ensures
            r@.0 == v,
            exists|t1: T|
                #[trigger] prod_of(self@.0, ln10, t1)
                && #[trigger] quot_of(self@.1, t1, r@.1),
            T::obeys_div_spec() && T::obeys_mul_spec() ==> r@ == log10_rule(self@, v, ln10),
    {
        let re = self.real_part();
        let du = self.dual();
        let t1 = re.mul(ln10);
        assert(prod_of(re, ln10, t1));
        let t2 = du.div(t1);
        assert(quot_of(du, t1, t2));
        DualNumber::new(v, t2)
    }

    /// An integer power `n`, from what the scalar type computed: `v` for
    /// `real^n`, `nf` for `n` as a scalar and `pm` for `real^(n - 1)`.
    pub fn powi_from(self, v: T, nf: T, pm: T) -> (r: Self)
        requires
            powi_defined(self@, v, nf, pm),
        ensures
            r@.0 == v,
            exists|t1: T|
                #[trigger] prod_of(nf, pm, t1)
                && #[trigger] prod_of(t1, self@.1, r@.1),
            T::obeys_mul_spec() ==> r@ == powi_rule(self@, v, nf, pm),
    {
        let du = self.dual();
        let t1 = nf.mul(pm);
        assert(prod_of(nf, pm, t1));
        let t2 = t1.mul(du);
        assert(prod_of(t1, du, t2));
        DualNumber::new(v, t2)
    }

    /// `self` raised to the power `y`, from what the scalar type computed: `v`
    /// for `real^y.real`, `pm` for `real^(y.real - 1)` and `l` for `ln(real)`.
    pub fn powf_from(self, other: Self, v: T, pm: T, l: T) -> (r: Self)
        requires
            powf_defined(self@, other@, v, pm, l),
        ensures
            r@.0 == v,
            exists|t1: T, t2: T, t3: T, t4: T|
                #[trigger] prod_of(other@.0, pm, t1)
                && #[trigger] prod_of(t1, self@.1, t2)
                && #[trigger] prod_of(v, l, t3)
                && #[trigger] prod_of(t3, other@.1, t4)
                && #[trigger] sum_of(t2, t4, r@.1),
            T::obeys_add_spec() && T::obeys_mul_spec() ==> r@ == powf_rule(self@, other@, v, pm, l),
    {
        let du = self.dual();
        let ore = other.real_part();
        let odu = other.dual();
        let t1 = ore.mul(pm);
        assert(prod_of(ore, pm, t1));
        let t2 = t1.mul(du);
        assert(prod_of(t1, du, t2));
        let t3 = v.mul(l);
        assert(prod_of(v, l, t3));
        let t4 = t3.mul(odu);
        assert(prod_of(t3, odu, t4));
        let t5 = t2.add(t4);
        assert(sum_of(t2, t4, t5));
        DualNumber::new(v, t5)
    }

    /// The sine, from what the scalar type computed: `s` for `sin(real)` and
    /// `c` for `cos(real)`.
    pub fn sin_from(self, s: T, c: T) -> (r: Self)
        requires
            sin_defined(self@, s, c),
        ensures
            r@.0 == s,
            prod_of(self@.1, c, r@.1),
            T::obeys_mul_spec() ==> r@ == sin_rule(self@, s, c),
    {
        let du = self.dual();
        let t1 = du.mul(c);
        assert(prod_of(du, c, t1));
        DualNumber::new(s, t1)
    }

    /// The cosine, from what the scalar type computed: `s` for `sin(real)` and
    /// `c` for `cos(real)`.
    pub fn cos_from(self, s: T, c: T) -> (r: Self)
        requires
            cos_defined(self@, s, c),
        ensures
            r@.0 == c,
            exists|t1: T|
                #[trigger] neg_of(self@.1, t1)
                && #[trigger] prod_of(t1, s, r@.1),
            T::obeys_mul_spec() && T::obeys_neg_spec() ==> r@ == cos_rule(self@, s, c),
    {
        let du = self.dual();
        let t1 = du.neg();
        assert(neg_of(du, t1));
        let t2 = t1.mul(s);
        assert(prod_of(t1, s, t2));
        DualNumber::new(c, t2)
    }

    /// The tangent, from what the scalar type computed: `t` for `tan(real)`
    /// and the scalar one.
    pub fn tan_from(self, t: T, one: T) -> (r: Self)
        requires
            tan_defined(self@, t, one),
        ensures
            r@.0 == t,
            exists|t1: T, t2: T|
                #[trigger] prod_of(t, t, t1)
                && #[trigger] sum_of(t1, one, t2)
                && #[trigger] prod_of(self@.1, t2, r@.1),
            T::obeys_mul_spec() && T::obeys_add_spec() ==> r@ == tan_rule(self@, t, one),
    {
        let du = self.dual();
        let t1 = t.mul(t);
        assert(prod_of(t, t, t1));
        let t2 = t1.add(one);
        assert(sum_of(t1, one, t2));
        let t3 = du.mul(t2);
        assert(prod_of(du, t2, t3));
        DualNumber::new(t, t3)
    }

    /// The arcsine, from what the scalar type computed: `v` for `asin(real)`
    /// and `root` for `sqrt(1 - real^2)`.
    pub fn asin_from(self, v: T, root: T) -> (r: Self)
        requires
            asin_defined(self@, v, root),
        ensures
            r@.0 == v,
            quot_of(self@.1, root, r@.1),
            T::obeys_div_spec() ==> r@ == asin_rule(self@, v, root),
    {
        let du = self.dual();
        let t1 = du.div(root);
        assert(quot_of(du, root, t1));
        DualNumber::new(v, t1)
    }

    /// The arccosine, from what the scalar type computed: `v` for `acos(real)`
    /// and `root` for `sqrt(1 - real^2)`.
    pub fn acos_from(self, v: T, root: T) -> (r: Self)
        requires
            acos_defined(self@, v, root),
        ensures
            r@.0 == v,
            exists|t1: T|
                #[trigger] neg_of(self@.1, t1)
                && #[trigger] quot_of(t1, root, r@.1),
            T::obeys_div_spec() && T::obeys_neg_spec() ==> r@ == acos_rule(self@, v, root),
    {
        let du = self.dual();
        let t1 = du.neg();
        assert(neg_of(du, t1));
        let t2 = t1.div(root);
        assert(quot_of(t1, root, t2));
        DualNumber::new(v, t2)
    }

    /// The arctangent, from what the scalar type computed: `v` for
    /// `atan(real)`, `sq` for `real^2` and the scalar one.
    pub fn atan_from(self, v: T, sq: T, one: T) -> (r: Self)
        requires
            atan_defined(self@, v, sq, one),
        ensures
            r@.0 == v,
            exists|t1: T|
                #[trigger] sum_of(sq, one, t1)
                && #[trigger] quot_of(self@.1, t1, r@.1),
            T::obeys_div_spec() && T::obeys_add_spec() ==> r@ == atan_rule(self@, v, sq, one),
    {
        let du = self.dual();
        let t1 = sq.add(one);
        assert(sum_of(sq, one, t1));
        let t2 = du.div(t1);
        assert(quot_of(du, t1, t2));
        DualNumber::new(v, t2)
    }

    /// The four-quadrant arctangent of `self / y`, from what the scalar type
    /// computed: `v` for `atan2(real, y.real)`, `ysq` for `real^2` and `xsq`
    /// for `y.real^2`.
    pub fn atan2_from(self, other: Self, v: T, ysq: T, xsq: T) -> (r: Self)
        requires
            atan2_defined(self@, other@, v, ysq, xsq),
        ensures
            r@.0 == v,
            exists|t1: T, t2: T, t3: T, t4: T|
                #[trigger] prod_of(other@.0, self@.1, t1)
                && #[trigger] prod_of(self@.0, other@.1, t2)
                && #[trigger] diff_of(t1, t2, t3)
                && #[trigger] sum_of(ysq, xsq, t4)
                && #[trigger] quot_of(t3, t4, r@.1),
            T::obeys_div_spec() && T::obeys_sub_spec() && T::obeys_mul_spec() &&
                T::obeys_add_spec() ==> r@ == atan2_rule(self@, other@, v, ysq, xsq),
    {
        let re = self.real_part();
        let du = self.dual();
        let ore = other.real_part();
        let odu = other.dual();
        let t1 = ore.mul(du);
        assert(prod_of(ore, du, t1));
        let t2 = re.mul(odu);
        assert(prod_of(re, odu, t2));
        let t3 = t1.sub(t2);
        assert(diff_of(t1, t2, t3));
        let t4 = ysq.add(xsq);
        assert(sum_of(ysq, xsq, t4));
        let t5 = t3.div(t4);
        assert(quot_of(t3, t4, t5));
        DualNumber::new(v, t5)
    }

    /// `exp(x) - 1`, from what the scalar type computed: `v` for
    /// `exp_m1(real)` and `e` for `exp(real)`.
    pub fn exp_m1_from(self, v: T, e: T) -> (r: Self)
        requires
            exp_m1_defined(self@, v, e),
        ensures
            r@.0 == v,
            prod_of(self@.1, e, r@.1),
            T::obeys_mul_spec() ==> r@ == exp_m1_rule(self@, v, e),
    {
        let du = self.dual();
        let t1 = du.mul(e);
        assert(prod_of(du, e, t1));
        DualNumber::new(v, t1)
    }

    /// `ln(1 + x)`, from what the scalar type computed: `v` for `ln_1p(real)`
    /// and the scalar one.
    pub fn ln_1p_from(self, v: T, one: T) -> (r: Self)
        requires
            ln_1p_defined(self@, v, one),
        ensures
            r@.0 == v,
            exists|t1: T|
                #[trigger] sum_of(self@.0, one, t1)
                && #[trigger] quot_of(self@.1, t1, r@.1),
            T::obeys_div_spec() && T::obeys_add_spec() ==> r@ == ln_1p_rule(self@, v, one),
    {
        let re = self.real_part();
        let du = self.dual();
        let t1 = re.add(one);
        assert(sum_of(re, one, t1));
        let t2 = du.div(t1);
        assert(quot_of(du, t1, t2));
        DualNumber::new(v, t2)
    }

    /// The hyperbolic sine, from what the scalar type computed: `v` for
    /// `sinh(real)` and `ch` for `cosh(real)`.
    pub fn sinh_from(self, v: T, ch: T) -> (r: Self)
        requires
            sinh_defined(self@, v, ch),
        ensures
            r@.0 == v,
            prod_of(self@.1, ch, r@.1),
            T::obeys_mul_spec() ==> r@ == sinh_rule(self@, v, ch),
    {
        let du = self.dual();
        let t1 = du.mul(ch);
        assert(prod_of(du, ch, t1));
        DualNumber::new(v, t1)
    }

    /// The hyperbolic cosine, from what the scalar type computed: `v` for
    /// `cosh(real)` and `sh` for `sinh(real)`.
    pub fn cosh_from(self, v: T, sh: T) -> (r: Self)
        requires
            cosh_defined(self@, v, sh),
        ensures
            r@.0 == v,
            prod_of(self@.1, sh, r@.1),
            T::obeys_mul_spec() ==> r@ == cosh_rule(self@, v, sh),
    {
        let du = self.dual();
        let t1 = du.mul(sh);
        assert(prod_of(du, sh, t1));
        DualNumber::new(v, t1)
    }

    /// The hyperbolic tangent, from what the scalar type computed: `v` for
    /// `tanh(real)`, `sq` for `v^2` and the scalar one.
    pub fn tanh_from(self, v: T, sq: T, one: T) -> (r: Self)
        requires
            tanh_defined(self@, v, sq, one),
        ensures
            r@.0 == v,
            exists|t1: T|
                #[trigger] diff_of(one, sq, t1)
                && #[trigger] prod_of(self@.1, t1, r@.1),
            T::obeys_mul_spec() && T::obeys_sub_spec() ==> r@ == tanh_rule(self@, v, sq, one),
    {
        let du = self.dual();
        let t1 = one.sub(sq);
        assert(diff_of(one, sq, t1));
        let t2 = du.mul(t1);
        assert(prod_of(du, t1, t2));
        DualNumber::new(v, t2)
    }

    /// The inverse hyperbolic sine, from what the scalar type computed: `v`
    /// for `asinh(real)` and `root` for `sqrt(real^2 + 1)`.
    pub fn asinh_from(self, v: T, root: T) -> (r: Self)
        requires
            asinh_defined(self@, v, root),
        ensures
            r@.0 == v,
            quot_of(self@.1, root, r@.1),
            T::obeys_div_spec() ==> r@ == asinh_rule(self@, v, root),
    {
        let du = self.dual();
        let t1 = du.div(root);
        assert(quot_of(du, root, t1));
        DualNumber::new(v, t1)
    }

    /// The inverse hyperbolic cosine, from what the scalar type computed: `v`
    /// for `acosh(real)`, `ra` for `sqrt(real + 1)` and `rb` for
    /// `sqrt(real - 1)`.
    pub fn acosh_from(self, v: T, ra: T, rb: T) -> (r: Self)
        requires
            acosh_defined(self@, v, ra, rb),
        ensures
            r@.0 == v,
            exists|t1: T|
                #[trigger] prod_of(ra, rb, t1)
                && #[trigger] quot_of(self@.1, t1, r@.1),
            T::obeys_div_spec() && T::obeys_mul_spec() ==> r@ == acosh_rule(self@, v, ra, rb),
    {
        let du = self.dual();
        let t1 = ra.mul(rb);
        assert(prod_of(ra, rb, t1));
        let t2 = du.div(t1);
        assert(quot_of(du, t1, t2));
        DualNumber::new(v, t2)
    }

    /// The inverse hyperbolic tangent, from what the scalar type computed: `v`
    /// for `atanh(real)`, `sq` for `real^2` and the scalar one.
    pub fn atanh_from(self, v: T, sq: T, one: T) -> (r: Self)
        requires
            atanh_defined(self@, v, sq, one),
        ensures
            r@.0 == v,
            exists|t1: T|
                #[trigger] diff_of(one, sq, t1)
                && #[trigger] quot_of(self@.1, t1, r@.1),
            T::obeys_div_spec() && T::obeys_sub_spec() ==> r@ == atanh_rule(self@, v, sq, one),
    {
        let du = self.dual();
        let t1 = one.sub(sq);
        assert(diff_of(one, sq, t1));
        let t2 = du.div(t1);
        assert(quot_of(du, t1, t2));
        DualNumber::new(v, t2)
    }

    /// The length of the hypotenuse over `self` and `y`, from what the scalar
    /// type computed: `h` for `hypot(real, y.real)`.
    pub fn hypot_from(self, other: Self, h: T) -> (r: Self)
        requires
            hypot_defined(self@, other@, h),
        ensures
            r@.0 == h,
            exists|t1: T, t2: T, t3: T|
                #[trigger] prod_of(self@.0, other@.1, t1)
                && #[trigger] prod_of(other@.0, self@.1, t2)
                && #[trigger] sum_of(t1, t2, t3)
                && #[trigger] quot_of(t3, h, r@.1),
            T::obeys_div_spec() && T::obeys_add_spec() && T::obeys_mul_spec() ==>
                r@ == hypot_rule(self@, other@, h),
    {
        let re = self.real_part();
        let du = self.dual();
        let ore = other.real_part();
        let odu = other.dual();
        let t1 = re.mul(odu);
        assert(prod_of(re, odu, t1));
        let t2 = ore.mul(du);
        assert(prod_of(ore, du, t2));
        let t3 = t1.add(t2);
        assert(sum_of(t1, t2, t3));
        let t4 = t3.div(h);
        assert(quot_of(t3, h, t4));
        DualNumber::new(h, t4)
    }

    /// `self * a + b` in one step, from what the scalar type computed: `v` for
    /// the fused `real * a.real + b.real`.
    pub fn mul_add_from(self, a: Self, b: Self, v: T) -> (r: Self)
        requires
            mul_add_defined(self@, a@, b@, v),
        ensures
            r@.0 == v,
            exists|t1: T, t2: T, t3: T|
                #[trigger] prod_of(self@.1, a@.0, t1)
                && #[trigger] prod_of(self@.0, a@.1, t2)
                && #[trigger] sum_of(t1, t2, t3)
                && #[trigger] sum_of(t3, b@.1, r@.1),
            T::obeys_add_spec() && T::obeys_mul_spec() ==> r@ == mul_add_rule(self@, a@, b@, v),
    {
        let re = self.real_part();
        let du = self.dual();
        let are = a.real_part();
        let adu = a.dual();
        let bdu = b.dual();
        let t1 = du.mul(are);
        assert(prod_of(du, are, t1));
        let t2 = re.mul(adu);
        assert(prod_of(re, adu, t2));
        let t3 = t1.add(t2);
        assert(sum_of(t1, t2, t3));
        let t4 = t3.add(bdu);
        assert(sum_of(t3, bdu, t4));
        DualNumber::new(v, t4)
    }

    /// The fractional part, from what the scalar type computed: `v` for
    /// `fract(real)`.
    pub fn fract_from(self, v: T) -> (r: Self)
        ensures
            r@.0 == v,
            r@ == fract_rule(self@, v),
    {
        let du = self.dual();
        DualNumber::new(v, du)
    }

    /// The absolute value, from what the scalar type computed: `m` for
    /// `abs(real)` and `sg` for `signum(real)`.
    pub fn abs_from(self, m: T, sg: T) -> (r: Self)
        requires
            abs_defined(self@, m, sg),
        ensures
            r@.0 == m,
            prod_of(self@.1, sg, r@.1),
            T::obeys_mul_spec() ==> r@ == abs_rule(self@, m, sg),
    {
        let du = self.dual();
        let t1 = du.mul(sg);
        assert(prod_of(du, sg, t1));
        DualNumber::new(m, t1)
    }

    /// A piecewise constant function, from what the scalar type computed: `v`
    /// for the function at `real`, and the scalar zero.
    pub fn step_from(self, v: T, zero: T) -> (r: Self)
        ensures
            r@.0 == v,
            r@ == step_rule(self@, v, zero),
    {
        DualNumber::new(v, zero)
    }

    /// The square root, from `v` for `sqrt(real)` and from what the conversion
    /// of
    /// 2 to the scalar type gave: the rule where it gave a scalar, else the
    /// failure.
    pub fn sqrt_given(self, v: T, given: Option<T>) -> (r: Result<Self, DualError>)
        requires
            given matches Some(two) ==> sqrt_defined(self@, v, two),
        ensures
            given is None <==> r is Err,
            (match given {
                Some(two) => r matches Ok(d) && d@.0 == v
                    && (exists|t1: T|
                            #[trigger] prod_of(two, v, t1)
                            && #[trigger] quot_of(self@.1, t1, d@.1))
                    && (T::obeys_div_spec() && T::obeys_mul_spec() ==>
                        d@ == sqrt_rule(self@, v, two)),
                None => r == Err::<Self, DualError>(DualError::Cast),
            }),
    {
        match given {
            Some(two) => Ok(self.sqrt_from(v, two)),
            None => Err(DualError::Cast),
        }
    }

    /// The cube root, from `v` for `cbrt(real)` and from what the conversion
    /// of 3
    /// to the scalar type gave: the rule where it gave a scalar, else the
    /// failure.
    pub fn cbrt_given(self, v: T, given: Option<T>) -> (r: Result<Self, DualError>)
        requires
            given matches Some(three) ==> cbrt_defined(self@, v, three),
        ensures
            given is None <==> r is Err,
            (match given {
                Some(three) => r matches Ok(d) && d@.0 == v
                    && (exists|t1: T, t2: T|
                            #[trigger] prod_of(three, v, t1)
                            && #[trigger] prod_of(t1, v, t2)
                            && #[trigger] quot_of(self@.1, t2, d@.1))
                    && (T::obeys_div_spec() && T::obeys_mul_spec() ==>
                        d@ == cbrt_rule(self@, v, three)),
                None => r == Err::<Self, DualError>(DualError::Cast),
            }),
    {
        match given {
            Some(three) => Ok(self.cbrt_from(v, three)),
            None => Err(DualError::Cast),
        }
    }

    /// An integer power `n`, from `v` for `real^n`, `pm` for `real^(n - 1)` and
    /// from what the conversion of `n` to the scalar type gave: the rule where
    /// it
    /// gave a scalar, else the failure.
    pub fn powi_given(self, v: T, given: Option<T>, pm: T) -> (r: Result<Self, DualError>)
        requires
            given matches Some(nf) ==> powi_defined(self@, v, nf, pm),
        ensures
            given is None <==> r is Err,
            (match given {
                Some(nf) => r matches Ok(d) && d@.0 == v
                    && (exists|t1: T|
                            #[trigger] prod_of(nf, pm, t1)
                            && #[trigger] prod_of(t1, self@.1, d@.1))
                    && (T::obeys_mul_spec() ==> d@ == powi_rule(self@, v, nf, pm)),
                None => r == Err::<Self, DualError>(DualError::Cast),
            }),
    {
        match given {
            Some(nf) => Ok(self.powi_from(v, nf, pm)),
            None => Err(DualError::Cast),
        }
    }

    /// The sine and the cosine at once, from one `s` for `sin(real)` and one
    /// `c` for `cos(real)`.
    pub fn sin_cos_from(self, s: T, c: T) -> (r: (Self, Self))
        requires
            sin_defined(self@, s, c),
            cos_defined(self@, s, c),
        ensures
            r.0@.0 == s,
            r.1@.0 == c,
            prod_of(self@.1, c, r.0@.1),
            exists|t1: T| #[trigger] neg_of(self@.1, t1) && #[trigger] prod_of(t1, s, r.1@.1),
            T::obeys_mul_spec() ==> r.0@ == sin_rule(self@, s, c),
            T::obeys_mul_spec() && T::obeys_neg_spec() ==> r.1@ == cos_rule(self@, s, c),
    {
        (self.sin_from(s, c), self.cos_from(s, c))
    }

    /// The logarithm of `self` to the base `base`, from `lx` for `ln(real)` and
    /// `lb` for `ln(base.real)`: the quotient of the two natural logarithms.
    pub fn log_from(self, base: Self, lx: T, lb: T) -> (r: Self)
        requires
            log_defined(self@, base@, lx, lb),
        ensures
            exists|p: T, q: T| #[trigger]
                quot_of(self@.1, self@.0, p) && #[trigger] quot_of(base@.1, base@.0, q)
                    && quotient_gives((lx, p), (lb, q), r@),
            T::obeys_div_spec() ==> r@.0 == lx.div_spec(lb),
            T::obeys_div_spec() && T::obeys_mul_spec() && T::obeys_sub_spec() ==> r@ == log_rule(
                self@,
                base@,
                lx,
                lb,
            ),
    {
        let a = self.ln_from(lx);
        let b = base.ln_from(lb);
        assert(a@ == (lx, a@.1) && b@ == (lb, b@.1));
        assert(quot_of(self@.1, self@.0, a@.1) && quot_of(base@.1, base@.0, b@.1));
        a.div(b)
    }
}

impl<T: Field + Float> DualNumber<T> {
    /// The square root, whose derivative is `1 / (2 * sqrt(x))`. Fails where
    /// the scalar type has no 2.
    pub fn sqrt(self) -> (r: Result<Self, DualError>)
        requires
            forall|v: T, two: T| sqrt_defined(self@, v, two),
        ensures
            exists|v: T, given: Option<T>|
                #[trigger] sqrt_gives(self@.0, v)
                && #[trigger] cast_gives::<T, i32>(2, given)
                && (match given {
                        Some(two) => r matches Ok(d) && d@.0 == v && (T::obeys_div_spec() &&
                            T::obeys_mul_spec() ==> d@ == sqrt_rule(self@, v, two))
                            && (exists|t1: T|
                                #[trigger] prod_of(two, v, t1)
                                && #[trigger] quot_of(self@.1, t1, d@.1)),
                        None => r == Err::<Self, DualError>(DualError::Cast),
                    }),
    {
        let re = self.real_part();
        let v = ask_sqrt(re);
        let given = ask_cast::<T, i32>(2);
        assert(given matches Some(two) ==> sqrt_defined(self@, v, two));
        self.sqrt_given(v, given)
    }

    /// The cube root, whose derivative is `1 / (3 * cbrt(x)^2)`. Fails where
    /// the scalar type has no 3.
    pub fn cbrt(self) -> (r: Result<Self, DualError>)
        requires
            forall|v: T, three: T| cbrt_defined(self@, v, three),
        ensures
            exists|v: T, given: Option<T>|
                #[trigger] cbrt_gives(self@.0, v)
                && #[trigger] cast_gives::<T, i32>(3, given)
                && (match given {
                        Some(three) => r matches Ok(d) && d@.0 == v && (T::obeys_div_spec() &&
                            T::obeys_mul_spec() ==> d@ == cbrt_rule(self@, v, three))
                            && (exists|t1: T, t2: T|
                                #[trigger] prod_of(three, v, t1)
                                && #[trigger] prod_of(t1, v, t2)
                                && #[trigger] quot_of(self@.1, t2, d@.1)),
                        None => r == Err::<Self, DualError>(DualError::Cast),
                    }),
    {
        let re = self.real_part();
        let v = ask_cbrt(re);
        let given = ask_cast::<T, i32>(3);
        assert(given matches Some(three) ==> cbrt_defined(self@, v, three));
        self.cbrt_given(v, given)
    }

    /// The exponential function: the derivative of `exp` is `exp` itself.
    pub fn exp(self) -> (r: Self)
        requires
            forall|v: T| exp_defined(self@, v),
        ensures
            exists|v: T|
                #[trigger] exp_gives(self@.0, v)
                && r@.0 == v
                && (T::obeys_mul_spec() ==> r@ == exp_rule(self@, v))
                && #[trigger] prod_of(self@.1, v, r@.1),
    {
        let re = self.real_part();
        let v = ask_exp(re);
        assert(exp_defined(self@, v));
        assert(exp_rule(self@, v).0 == v);
        self.exp_from(v)
    }

    /// The natural logarithm, whose derivative is `1 / x`.
    pub fn ln(self) -> (r: Self)
        requires
            forall|v: T| ln_defined(self@, v),
        ensures
            exists|v: T|
                #[trigger] ln_gives(self@.0, v)
                && r@.0 == v
                && (T::obeys_div_spec() ==> r@ == ln_rule(self@, v))
                && #[trigger] quot_of(self@.1, self@.0, r@.1),
    {
        let re = self.real_part();
        let v = ask_ln(re);
        assert(ln_defined(self@, v));
        assert(ln_rule(self@, v).0 == v);
        self.ln_from(v)
    }

    /// `self` raised to the integer power `n`, whose derivative is
    /// `n * x^(n - 1)`. Fails where `n` does not fit the scalar type.
    pub fn powi(self, n: i32) -> (r: Result<Self, DualError>)
        requires
            n > i32::MIN,
            forall|v: T, nf: T, pm: T| powi_defined(self@, v, nf, pm),
        ensures
            exists|given: Option<T>, v: T, m: i32, pm: T|
                #[trigger] cast_gives::<T, i32>(n, given)
                && #[trigger] powi_gives(self@.0, n, v)
                && m == n - 1
                && #[trigger] powi_gives(self@.0, m, pm)
                && (match given {
                        Some(nf) => r matches Ok(d) && d@.0 == v && (T::obeys_mul_spec() ==>
                            d@ == powi_rule(self@, v, nf, pm))
                            && (exists|t1: T|
                                #[trigger] prod_of(nf, pm, t1)
                                && #[trigger] prod_of(t1, self@.1, d@.1)),
                        None => r == Err::<Self, DualError>(DualError::Cast),
                    }),
    {
        let re = self.real_part();
        let given = ask_cast::<T, i32>(n);
        let v = ask_powi(re, n);
        let m: i32 = n - 1;
        let pm = ask_powi(re, m);
        assert(given matches Some(nf) ==> powi_defined(self@, v, nf, pm));
        self.powi_given(v, given, pm)
    }

    /// `self` raised to the dual power `other`, by the chain rule in both
    /// operands.
    pub fn powf(self, other: Self) -> (r: Self)
        requires
            forall|one: T| #[trigger] other@.0.sub_req(one),
            forall|v: T, pm: T, l: T| powf_defined(self@, other@, v, pm, l),
        ensures
            exists|v: T, one: T, less: T, pm: T, l: T, t1: T, t2: T, t3: T, t4: T|
                #[trigger] powf_gives(self@.0, other@.0, v)
                && #[trigger] one_gives(one)
                && #[trigger] diff_of(other@.0, one, less)
                && #[trigger] powf_gives(self@.0, less, pm)
                && #[trigger] ln_gives(self@.0, l)
                && r@.0 == v
                && (T::obeys_add_spec() && T::obeys_mul_spec() ==>
                    r@ == powf_rule(self@, other@, v, pm, l))
                && #[trigger] prod_of(other@.0, pm, t1)
                && #[trigger] prod_of(t1, self@.1, t2)
                && #[trigger] prod_of(v, l, t3)
                && #[trigger] prod_of(t3, other@.1, t4)
                && #[trigger] sum_of(t2, t4, r@.1),
    {
        let re = self.real_part();
        let ore = other.real_part();
        let v = ask_powf(re, ore);
        let one: T = ask_one();
        let less = ore.sub(one);
        assert(diff_of(ore, one, less));
        let pm = ask_powf(re, less);
        let l = ask_ln(re);
        assert(powf_defined(self@, other@, v, pm, l));
        assert(powf_rule(self@, other@, v, pm, l).0 == v);
        self.powf_from(other, v, pm, l)
    }

    /// The sine, whose derivative is the cosine.
    pub fn sin(self) -> (r: Self)
        requires
            forall|s: T, c: T| sin_defined(self@, s, c),
        ensures
            exists|s: T, c: T|
                #[trigger] sin_gives(self@.0, s)
                && #[trigger] cos_gives(self@.0, c)
                && r@.0 == s
                && (T::obeys_mul_spec() ==> r@ == sin_rule(self@, s, c))
                && #[trigger] prod_of(self@.1, c, r@.1),
    {
        let re = self.real_part();
        let s = ask_sin(re);
        let c = ask_cos(re);
        assert(sin_defined(self@, s, c));
        assert(sin_rule(self@, s, c).0 == s);
        self.sin_from(s, c)
    }

    /// The cosine, whose derivative is the sine negated.
    pub fn cos(self) -> (r: Self)
        requires
            forall|s: T, c: T| cos_defined(self@, s, c),
        ensures
            exists|s: T, c: T, t1: T|
                #[trigger] sin_gives(self@.0, s)
                && #[trigger] cos_gives(self@.0, c)
                && r@.0 == c
                && (T::obeys_mul_spec() && T::obeys_neg_spec() ==> r@ == cos_rule(self@, s, c))
                && #[trigger] neg_of(self@.1, t1)
                && #[trigger] prod_of(t1, s, r@.1),
    {
        let re = self.real_part();
        let s = ask_sin(re);
        let c = ask_cos(re);
        assert(cos_defined(self@, s, c));
        assert(cos_rule(self@, s, c).0 == c);
        self.cos_from(s, c)
    }

    /// The tangent, whose derivative is `tan^2 + 1`.
    pub fn tan(self) -> (r: Self)
        requires
            forall|t: T, one: T| tan_defined(self@, t, one),
        ensures
            exists|t: T, one: T, t1: T, t2: T|
                #[trigger] tan_gives(self@.0, t)
                && #[trigger] one_gives(one)
                && r@.0 == t
                && (T::obeys_mul_spec() && T::obeys_add_spec() ==> r@ == tan_rule(self@, t, one))
                && #[trigger] prod_of(t, t, t1)
                && #[trigger] sum_of(t1, one, t2)
                && #[trigger] prod_of(self@.1, t2, r@.1),
    {
        let re = self.real_part();
        let t = ask_tan(re);
        let one: T = ask_one();
        assert(tan_defined(self@, t, one));
        assert(tan_rule(self@, t, one).0 == t);
        self.tan_from(t, one)
    }

    /// The arcsine, whose derivative is `1 / sqrt(1 - x^2)`.
    pub fn asin(self) -> (r: Self)
        requires
            forall|one: T, sq: T| #[trigger] one.sub_req(sq),
            forall|v: T, root: T| asin_defined(self@, v, root),
        ensures
            exists|v: T, one: T, sq: T, d: T, root: T|
                #[trigger] asin_gives(self@.0, v)
                && #[trigger] one_gives(one)
                && #[trigger] powi_gives(self@.0, 2, sq)
                && #[trigger] diff_of(one, sq, d)
                && #[trigger] sqrt_gives(d, root)
                && r@.0 == v
                && (T::obeys_div_spec() ==> r@ == asin_rule(self@, v, root))
                && #[trigger] quot_of(self@.1, root, r@.1),
    {
        let re = self.real_part();
        let v = ask_asin(re);
        let one: T = ask_one();
        let sq = ask_powi(re, 2);
        let d = one.sub(sq);
        assert(diff_of(one, sq, d));
        let root = ask_sqrt(d);
        assert(asin_defined(self@, v, root));
        assert(asin_rule(self@, v, root).0 == v);
        self.asin_from(v, root)
    }

    /// The arccosine, whose derivative is `-1 / sqrt(1 - x^2)`.
    pub fn acos(self) -> (r: Self)
        requires
            forall|one: T, sq: T| #[trigger] one.sub_req(sq),
            forall|v: T, root: T| acos_defined(self@, v, root),
        ensures
            exists|v: T, one: T, sq: T, d: T, root: T, t1: T|
                #[trigger] acos_gives(self@.0, v)
                && #[trigger] one_gives(one)
                && #[trigger] powi_gives(self@.0, 2, sq)
                && #[trigger] diff_of(one, sq, d)
                && #[trigger] sqrt_gives(d, root)
                && r@.0 == v
                && (T::obeys_div_spec() && T::obeys_neg_spec() ==> r@ == acos_rule(self@, v, root))
                && #[trigger] neg_of(self@.1, t1)
                && #[trigger] quot_of(t1, root, r@.1),
    {
        let re = self.real_part();
        let v = ask_acos(re);
        let one: T = ask_one();
        let sq = ask_powi(re, 2);
        let d = one.sub(sq);
        assert(diff_of(one, sq, d));
        let root = ask_sqrt(d);
        assert(acos_defined(self@, v, root));
        assert(acos_rule(self@, v, root).0 == v);
        self.acos_from(v, root)
    }

    /// The arctangent, whose derivative is `1 / (x^2 + 1)`.
    pub fn atan(self) -> (r: Self)
        requires
            forall|v: T, sq: T, one: T| atan_defined(self@, v, sq, one),
        ensures
            exists|v: T, sq: T, one: T, t1: T|
                #[trigger] atan_gives(self@.0, v)
                && #[trigger] powi_gives(self@.0, 2, sq)
                && #[trigger] one_gives(one)
                && r@.0 == v
                && (T::obeys_div_spec() && T::obeys_add_spec() ==>
                    r@ == atan_rule(self@, v, sq, one))
                && #[trigger] sum_of(sq, one, t1)
                && #[trigger] quot_of(self@.1, t1, r@.1),
    {
        let re = self.real_part();
        let v = ask_atan(re);
        let sq = ask_powi(re, 2);
        let one: T = ask_one();
        assert(atan_defined(self@, v, sq, one));
        assert(atan_rule(self@, v, sq, one).0 == v);
        self.atan_from(v, sq, one)
    }

    /// The four-quadrant arctangent of `self / other`.
    pub fn atan2(self, other: Self) -> (r: Self)
        requires
            forall|v: T, ysq: T, xsq: T| atan2_defined(self@, other@, v, ysq, xsq),
        ensures
            exists|v: T, ysq: T, xsq: T, t1: T, t2: T, t3: T, t4: T|
                #[trigger] atan2_gives(self@.0, other@.0, v)
                && #[trigger] powi_gives(self@.0, 2, ysq)
                && #[trigger] powi_gives(other@.0, 2, xsq)
                && r@.0 == v
                && (T::obeys_div_spec() && T::obeys_sub_spec() && T::obeys_mul_spec() &&
                    T::obeys_add_spec() ==> r@ == atan2_rule(self@, other@, v, ysq, xsq))
                && #[trigger] prod_of(other@.0, self@.1, t1)
                && #[trigger] prod_of(self@.0, other@.1, t2)
                && #[trigger] diff_of(t1, t2, t3)
                && #[trigger] sum_of(ysq, xsq, t4)
                && #[trigger] quot_of(t3, t4, r@.1),
    {
        let re = self.real_part();
        let ore = other.real_part();
        let v = ask_atan2(re, ore);
        let ysq = ask_powi(re, 2);
        let xsq = ask_powi(ore, 2);
        assert(atan2_defined(self@, other@, v, ysq, xsq));
        assert(atan2_rule(self@, other@, v, ysq, xsq).0 == v);
        self.atan2_from(other, v, ysq, xsq)
    }

    /// `exp(x) - 1`, whose derivative is `exp(x)`.
    pub fn exp_m1(self) -> (r: Self)
        requires
            forall|v: T, e: T| exp_m1_defined(self@, v, e),
        ensures
            exists|v: T, e: T|
                #[trigger] exp_m1_gives(self@.0, v)
                && #[trigger] exp_gives(self@.0, e)
                && r@.0 == v
                && (T::obeys_mul_spec() ==> r@ == exp_m1_rule(self@, v, e))
                && #[trigger] prod_of(self@.1, e, r@.1),
    {
        let re = self.real_part();
        let v = ask_exp_m1(re);
        let e = ask_exp(re);
        assert(exp_m1_defined(self@, v, e));
        assert(exp_m1_rule(self@, v, e).0 == v);
        self.exp_m1_from(v, e)
    }

    /// `ln(1 + x)`, whose derivative is `1 / (x + 1)`.
    pub fn ln_1p(self) -> (r: Self)
        requires
            forall|v: T, one: T| ln_1p_defined(self@, v, one),
        ensures
            exists|v: T, one: T, t1: T|
                #[trigger] ln_1p_gives(self@.0, v)
                && #[trigger] one_gives(one)
                && r@.0 == v
                && (T::obeys_div_spec() && T::obeys_add_spec() ==> r@ == ln_1p_rule(self@, v, one))
                && #[trigger] sum_of(self@.0, one, t1)
                && #[trigger] quot_of(self@.1, t1, r@.1),
    {
        let re = self.real_part();
        let v = ask_ln_1p(re);
        let one: T = ask_one();
        assert(ln_1p_defined(self@, v, one));
        assert(ln_1p_rule(self@, v, one).0 == v);
        self.ln_1p_from(v, one)
    }

    /// The hyperbolic sine, whose derivative is the hyperbolic cosine.
    pub fn sinh(self) -> (r: Self)
        requires
            forall|v: T, ch: T| sinh_defined(self@, v, ch),
        ensures
            exists|v: T, ch: T|
                #[trigger] sinh_gives(self@.0, v)
                && #[trigger] cosh_gives(self@.0, ch)
                && r@.0 == v
                && (T::obeys_mul_spec() ==> r@ == sinh_rule(self@, v, ch))
                && #[trigger] prod_of(self@.1, ch, r@.1),
    {
        let re = self.real_part();
        let v = ask_sinh(re);
        let ch = ask_cosh(re);
        assert(sinh_defined(self@, v, ch));
        assert(sinh_rule(self@, v, ch).0 == v);
        self.sinh_from(v, ch)
    }

    /// The hyperbolic cosine, whose derivative is the hyperbolic sine.
    pub fn cosh(self) -> (r: Self)
        requires
            forall|v: T, sh: T| cosh_defined(self@, v, sh),
        ensures
            exists|v: T, sh: T|
                #[trigger] cosh_gives(self@.0, v)
                && #[trigger] sinh_gives(self@.0, sh)
                && r@.0 == v
                && (T::obeys_mul_spec() ==> r@ == cosh_rule(self@, v, sh))
                && #[trigger] prod_of(self@.1, sh, r@.1),
    {
        let re = self.real_part();
        let v = ask_cosh(re);
        let sh = ask_sinh(re);
        assert(cosh_defined(self@, v, sh));
        assert(cosh_rule(self@, v, sh).0 == v);
        self.cosh_from(v, sh)
    }

    /// The hyperbolic tangent, whose derivative is `1 - tanh^2`.
    pub fn tanh(self) -> (r: Self)
        requires
            forall|v: T, sq: T, one: T| tanh_defined(self@, v, sq, one),
        ensures
            exists|v: T, sq: T, one: T, t1: T|
                #[trigger] tanh_gives(self@.0, v)
                && #[trigger] powi_gives(v, 2, sq)
                && #[trigger] one_gives(one)
                && r@.0 == v
                && (T::obeys_mul_spec() && T::obeys_sub_spec() ==>
                    r@ == tanh_rule(self@, v, sq, one))
                && #[trigger] diff_of(one, sq, t1)
                && #[trigger] prod_of(self@.1, t1, r@.1),
    {
        let re = self.real_part();
        let v = ask_tanh(re);
        let sq = ask_powi(v, 2);
        let one: T = ask_one();
        assert(tanh_defined(self@, v, sq, one));
        assert(tanh_rule(self@, v, sq, one).0 == v);
        self.tanh_from(v, sq, one)
    }

    /// The inverse hyperbolic sine, whose derivative is `1 / sqrt(x^2 + 1)`.
    pub fn asinh(self) -> (r: Self)
        requires
            forall|sq: T, one: T| #[trigger] sq.add_req(one),
            forall|v: T, root: T| asinh_defined(self@, v, root),
        ensures
            exists|v: T, sq: T, one: T, d: T, root: T|
                #[trigger] asinh_gives(self@.0, v)
                && #[trigger] powi_gives(self@.0, 2, sq)
                && #[trigger] one_gives(one)
                && #[trigger] sum_of(sq, one, d)
                && #[trigger] sqrt_gives(d, root)
                && r@.0 == v
                && (T::obeys_div_spec() ==> r@ == asinh_rule(self@, v, root))
                && #[trigger] quot_of(self@.1, root, r@.1),
    {
        let re = self.real_part();
        let v = ask_asinh(re);
        let sq = ask_powi(re, 2);
        let one: T = ask_one();
        let d = sq.add(one);
        assert(sum_of(sq, one, d));
        let root = ask_sqrt(d);
        assert(asinh_defined(self@, v, root));
        assert(asinh_rule(self@, v, root).0 == v);
        self.asinh_from(v, root)
    }

    /// The inverse hyperbolic cosine, whose derivative is
    /// `1 / (sqrt(x + 1) * sqrt(x - 1))`.
    pub fn acosh(self) -> (r: Self)
        requires
            forall|one: T| #[trigger] self@.0.add_req(one),
            forall|one: T| #[trigger] self@.0.sub_req(one),
            forall|v: T, ra: T, rb: T| acosh_defined(self@, v, ra, rb),
        ensures
            exists|v: T, one: T, up: T, ra: T, down: T, rb: T, t1: T|
                #[trigger] acosh_gives(self@.0, v)
                && #[trigger] one_gives(one)
                && #[trigger] sum_of(self@.0, one, up)
                && #[trigger] sqrt_gives(up, ra)
                && #[trigger] diff_of(self@.0, one, down)
                && #[trigger] sqrt_gives(down, rb)
                && r@.0 == v
                && (T::obeys_div_spec() && T::obeys_mul_spec() ==>
                    r@ == acosh_rule(self@, v, ra, rb))
                && #[trigger] prod_of(ra, rb, t1)
                && #[trigger] quot_of(self@.1, t1, r@.1),
    {
        let re = self.real_part();
        let v = ask_acosh(re);
        let one: T = ask_one();
        let up = re.add(one);
        assert(sum_of(re, one, up));
        let ra = ask_sqrt(up);
        let down = re.sub(one);
        assert(diff_of(re, one, down));
        let rb = ask_sqrt(down);
        assert(acosh_defined(self@, v, ra, rb));
        assert(acosh_rule(self@, v, ra, rb).0 == v);
        self.acosh_from(v, ra, rb)
    }

    /// The inverse hyperbolic tangent, whose derivative is `1 / (1 - x^2)`.
    pub fn atanh(self) -> (r: Self)
        requires
            forall|v: T, sq: T, one: T| atanh_defined(self@, v, sq, one),
        ensures
            exists|v: T, sq: T, one: T, t1: T|
                #[trigger] atanh_gives(self@.0, v)
                && #[trigger] powi_gives(self@.0, 2, sq)
                && #[trigger] one_gives(one)
                && r@.0 == v
                && (T::obeys_div_spec() && T::obeys_sub_spec() ==>
                    r@ == atanh_rule(self@, v, sq, one))
                && #[trigger] diff_of(one, sq, t1)
                && #[trigger] quot_of(self@.1, t1, r@.1),
    {
        let re = self.real_part();
        let v = ask_atanh(re);
        let sq = ask_powi(re, 2);
        let one: T = ask_one();
        assert(atanh_defined(self@, v, sq, one));
        assert(atanh_rule(self@, v, sq, one).0 == v);
        self.atanh_from(v, sq, one)
    }

    /// The length of the hypotenuse of a right triangle with legs `self` and
    /// `other`.
    pub fn hypot(self, other: Self) -> (r: Self)
        requires
            forall|h: T| hypot_defined(self@, other@, h),
        ensures
            exists|h: T, t1: T, t2: T, t3: T|
                #[trigger] hypot_gives(self@.0, other@.0, h)
                && r@.0 == h
                && (T::obeys_div_spec() && T::obeys_add_spec() && T::obeys_mul_spec() ==>
                    r@ == hypot_rule(self@, other@, h))
                && #[trigger] prod_of(self@.0, other@.1, t1)
                && #[trigger] prod_of(other@.0, self@.1, t2)
                && #[trigger] sum_of(t1, t2, t3)
                && #[trigger] quot_of(t3, h, r@.1),
    {
        let re = self.real_part();
        let ore = other.real_part();
        let h = ask_hypot(re, ore);
        assert(hypot_defined(self@, other@, h));
        assert(hypot_rule(self@, other@, h).0 == h);
        self.hypot_from(other, h)
    }

    /// `self * a + b`: the real part is rounded once, the dual part follows the
    /// product rule.
    pub fn mul_add(self, a: Self, b: Self) -> (r: Self)
        requires
            forall|v: T| mul_add_defined(self@, a@, b@, v),
        ensures
            exists|v: T, t1: T, t2: T, t3: T|
                #[trigger] mul_add_gives(self@.0, a@.0, b@.0, v)
                && r@.0 == v
                && (T::obeys_add_spec() && T::obeys_mul_spec() ==>
                    r@ == mul_add_rule(self@, a@, b@, v))
                && #[trigger] prod_of(self@.1, a@.0, t1)
                && #[trigger] prod_of(self@.0, a@.1, t2)
                && #[trigger] sum_of(t1, t2, t3)
                && #[trigger] sum_of(t3, b@.1, r@.1),
    {
        let re = self.real_part();
        let are = a.real_part();
        let bre = b.real_part();
        let v = ask_mul_add(re, are, bre);
        assert(mul_add_defined(self@, a@, b@, v));
        assert(mul_add_rule(self@, a@, b@, v).0 == v);
        self.mul_add_from(a, b, v)
    }

    /// The fractional part: `x - floor(x)`, so the dual part passes through.
    pub fn fract(self) -> (r: Self)
        ensures
            exists|v: T|
                #[trigger] fract_gives(self@.0, v)
                && r@ == fract_rule(self@, v),
    {
        let re = self.real_part();
        let v = ask_fract(re);
        assert(fract_rule(self@, v).0 == v);
        self.fract_from(v)
    }

    /// The sine and the cosine at once, from one evaluation of both by the
    /// scalar type.
    pub fn sin_cos(self) -> (r: (Self, Self))
        requires
            forall|s: T, c: T| sin_defined(self@, s, c) && cos_defined(self@, s, c),
        ensures
            exists|s: T, c: T|
                #[trigger] sin_cos_gives(self@.0, (s, c))
                && r.0@.0 == s
                && r.1@.0 == c
                && prod_of(self@.1, c, r.0@.1)
                && (exists|t1: T| #[trigger]
                    neg_of(self@.1, t1) && #[trigger] prod_of(t1, s, r.1@.1))
                && (T::obeys_mul_spec() ==> r.0@ == sin_rule(self@, s, c))
                && (T::obeys_mul_spec() && T::obeys_neg_spec() ==> r.1@ == cos_rule(self@, s, c)),
    {
        let (s, c) = ask_sin_cos(self.real_part());
        assert(sin_defined(self@, s, c) && cos_defined(self@, s, c));
        self.sin_cos_from(s, c)
    }

    /// The logarithm of `self` to the base `base`.
    pub fn log(self, base: Self) -> (r: Self)
        requires
            forall|lx: T, lb: T| log_defined(self@, base@, lx, lb),
        ensures
            exists|lx: T, lb: T|
                #[trigger] ln_gives(self@.0, lx)
                && #[trigger] ln_gives(base@.0, lb)
                && (exists|p: T, q: T| #[trigger]
                    quot_of(self@.1, self@.0, p) && #[trigger] quot_of(base@.1, base@.0, q)
                        && quotient_gives((lx, p), (lb, q), r@))
                && (T::obeys_div_spec() ==> r@.0 == lx.div_spec(lb))
                && (T::obeys_div_spec() && T::obeys_mul_spec() && T::obeys_sub_spec()
                    ==> r@ == log_rule(self@, base@, lx, lb)),
    {
        let lx = ask_ln(self.real_part());
        let lb = ask_ln(base.real_part());
        assert(log_defined(self@, base@, lx, lb));
        assert(log_rule(self@, base@, lx, lb).0 == lx.div_spec(lb));
        self.log_from(base, lx, lb)
    }

    /// The reciprocal: the dual number one divided by `self`.
    pub fn recip(self) -> (r: Self)
        requires
            forall|one: (T, T)|
                one_gives(one.0) && zero_gives(one.1) ==> #[trigger] quotient_defined(one, self@),
        ensures
            exists|one: (T, T)|
                #[trigger] one_gives(one.0)
                && #[trigger] zero_gives(one.1)
                && quotient_gives(one, self@, r@)
                && (T::obeys_div_spec() && T::obeys_mul_spec() && T::obeys_sub_spec()
                    ==> r@ == quotient(one, self@)),
    {
        let one = DualNumber::one();
        assert(one_gives(one@.0) && zero_gives(one@.1));
        assert(quotient_defined(one@, self@));
        assert(quotient(one@, self@).0 == one@.0.div_spec(self@.0));
        one.div(self)
    }

    /// The largest integer not above `self`: its derivative is zero.
    pub fn floor(self) -> (r: Self)
        ensures
            floor_gives(self@.0, r@.0),
            zero_gives(r@.1),
            r@ == step_rule(self@, r@.0, r@.1),
    {
        let v = ask_floor(self.real_part());
        let zero: T = ask_zero();
        self.step_from(v, zero)
    }

    /// The smallest integer not below `self`: its derivative is zero.
    pub fn ceil(self) -> (r: Self)
        ensures
            ceil_gives(self@.0, r@.0),
            zero_gives(r@.1),
            r@ == step_rule(self@, r@.0, r@.1),
    {
        let v = ask_ceil(self.real_part());
        let zero: T = ask_zero();
        self.step_from(v, zero)
    }

    /// The integer nearest to `self`: its derivative is zero.
    pub fn round(self) -> (r: Self)
        ensures
            round_gives(self@.0, r@.0),
            zero_gives(r@.1),
            r@ == step_rule(self@, r@.0, r@.1),
    {
        let v = ask_round(self.real_part());
        let zero: T = ask_zero();
        self.step_from(v, zero)
    }

    /// The integer part of `self`: its derivative is zero.
    pub fn trunc(self) -> (r: Self)
        ensures
            trunc_gives(self@.0, r@.0),
            zero_gives(r@.1),
            r@ == step_rule(self@, r@.0, r@.1),
    {
        let v = ask_trunc(self.real_part());
        let zero: T = ask_zero();
        self.step_from(v, zero)
    }

    /// Whether either part is not a number.
    pub fn is_nan(self) -> (r: bool)
        ensures
            exists|a: bool, b: bool|
                #[trigger] is_nan_gives(self@.0, a) && #[trigger] is_nan_gives(self@.1, b)
                    && r == (a || b),
    {
        let a = ask_is_nan(self.real_part());
        let b = ask_is_nan(self.dual());
        either(a, b)
    }

    /// Whether either part is infinite.
    pub fn is_infinite(self) -> (r: bool)
        ensures
            exists|a: bool, b: bool|
                #[trigger] is_infinite_gives(self@.0, a) && #[trigger] is_infinite_gives(self@.1, b)
                    && r == (a || b),
    {
        let a = ask_is_infinite(self.real_part());
        let b = ask_is_infinite(self.dual());
        either(a, b)
    }

    /// Whether both parts are finite.
    pub fn is_finite(self) -> (r: bool)
        ensures
            exists|a: bool, b: bool|
                #[trigger] is_finite_gives(self@.0, a) && #[trigger] is_finite_gives(self@.1, b)
                    && r == (a && b),
    {
        let a = ask_is_finite(self.real_part());
        let b = ask_is_finite(self.dual());
        both(a, b)
    }

    /// Whether both parts are normal numbers.
    pub fn is_normal(self) -> (r: bool)
        ensures
            exists|a: bool, b: bool|
                #[trigger] is_normal_gives(self@.0, a) && #[trigger] is_normal_gives(self@.1, b)
                    && r == (a && b),
    {
        let a = ask_is_normal(self.real_part());
        let b = ask_is_normal(self.dual());
        both(a, b)
    }

    /// Whether the sign of the real part is positive.
    pub fn is_sign_positive(self) -> (r: bool)
        ensures
            is_sign_positive_gives(self@.0, r),
    {
        ask_is_sign_positive(self.real_part())
    }

    /// Whether the sign of the real part is negative.
    pub fn is_sign_negative(self) -> (r: bool)
        ensures
            is_sign_negative_gives(self@.0, r),
    {
        ask_is_sign_negative(self.real_part())
    }

    /// Mantissa, exponent and sign of the real part.
    pub fn integer_decode(self) -> (r: (u64, i16, i8))
        ensures
            integer_decode_gives(self@.0, r),
    {
        ask_integer_decode(self.real_part())
    }
}

impl<T: Field + Float + FloatConst> DualNumber<T> {
    /// Two to the power `self`, whose derivative is `ln(2) * 2^x`.
    pub fn exp2(self) -> (r: Self)
        requires
            forall|v: T, ln2: T| exp2_defined(self@, v, ln2),
        ensures
            exists|v: T, ln2: T, t1: T|
                #[trigger] exp2_gives(self@.0, v)
                && #[trigger] ln_2_gives(ln2)
                && r@.0 == v
                && (T::obeys_mul_spec() ==> r@ == exp2_rule(self@, v, ln2))
                && #[trigger] prod_of(self@.1, ln2, t1)
                && #[trigger] prod_of(t1, v, r@.1),
    {
        let re = self.real_part();
        let v = ask_exp2(re);
        let ln2: T = ask_ln_2();
        assert(exp2_defined(self@, v, ln2));
        assert(exp2_rule(self@, v, ln2).0 == v);
        self.exp2_from(v, ln2)
    }

    /// The logarithm to base 2, whose derivative is `1 / (x * ln(2))`.
    pub fn log2(self) -> (r: Self)
        requires
            forall|v: T, ln2: T| log2_defined(self@, v, ln2),
        ensures
            exists|v: T, ln2: T, t1: T|
                #[trigger] log2_gives(self@.0, v)
                && #[trigger] ln_2_gives(ln2)
                && r@.0 == v
                && (T::obeys_div_spec() && T::obeys_mul_spec() ==> r@ == log2_rule(self@, v, ln2))
                && #[trigger] prod_of(self@.0, ln2, t1)
                && #[trigger] quot_of(self@.1, t1, r@.1),
    {
        let re = self.real_part();
        let v = ask_log2(re);
        let ln2: T = ask_ln_2();
        assert(log2_defined(self@, v, ln2));
        assert(log2_rule(self@, v, ln2).0 == v);
        self.log2_from(v, ln2)
    }

    /// The logarithm to base 10, whose derivative is `1 / (x * ln(10))`.
    pub fn log10(self) -> (r: Self)
        requires
            forall|v: T, ln10: T| log10_defined(self@, v, ln10),
        ensures
            exists|v: T, ln10: T, t1: T|
                #[trigger] log10_gives(self@.0, v)
                && #[trigger] ln_10_gives(ln10)
                && r@.0 == v
                && (T::obeys_div_spec() && T::obeys_mul_spec() ==> r@ == log10_rule(self@, v, ln10))
                && #[trigger] prod_of(self@.0, ln10, t1)
                && #[trigger] quot_of(self@.1, t1, r@.1),
    {
        let re = self.real_part();
        let v = ask_log10(re);
        let ln10: T = ask_ln_10();
        assert(log10_defined(self@, v, ln10));
        assert(log10_rule(self@, v, ln10).0 == v);
        self.log10_from(v, ln10)
    }
}

impl<T: Copy + Sub<Output = T> + PartialOrd> DualNumber<T> {
    /// The positive difference, given the dual number to return where there
    /// is none: `self - rhs` where the real part of `self` is the greater,
    /// else `zero`.
    pub fn abs_sub_from(self, rhs: Self, zero: Self) -> (r: Self)
        requires
            difference_defined(self@, rhs@) || (T::obeys_partial_cmp_spec() && !greater(
                self@.0,
                rhs@.0,
            )),
        ensures
            exists|first: bool| #[trigger]
                call_ensures(T::gt, (&self@.0, &rhs@.0), first) && if first {
                    difference_gives(self@, rhs@, r@)
                } else {
                    r == zero
                },
            T::obeys_partial_cmp_spec() && !greater(self@.0, rhs@.0) ==> r == zero,
            T::obeys_partial_cmp_spec() && T::obeys_sub_spec() ==> r@ == abs_sub_rule(
                self@,
                rhs@,
                zero@,
            ),
    {
        if self.real_ref().gt(rhs.real_ref()) {
            self.sub(rhs)
        } else {
            zero
        }
    }

    /// The positive difference: `self - rhs` where the real part of `self` is
    /// the greater, else the dual number zero.
    pub fn abs_sub(self, rhs: Self) -> (r: Self) where T: Zero
        requires
            difference_defined(self@, rhs@) || (T::obeys_partial_cmp_spec() && !greater(
                self@.0,
                rhs@.0,
            )),
        ensures
            exists|first: bool| #[trigger]
                call_ensures(T::gt, (&self@.0, &rhs@.0), first) && if first {
                    difference_gives(self@, rhs@, r@)
                } else {
                    zero_gives(r@.0) && zero_gives(r@.1)
                },
            T::obeys_partial_cmp_spec() && !greater(self@.0, rhs@.0) ==> zero_gives(r@.0)
                && zero_gives(r@.1),
            T::obeys_partial_cmp_spec() && T::obeys_sub_spec() ==> exists|zero: (T, T)|
                #[trigger] zero_gives(zero.0) && #[trigger] zero_gives(zero.1) && r@
                    == abs_sub_rule(self@, rhs@, zero),
    {
        let zero = DualNumber::zero();
        assert(zero_gives(zero@.0) && zero_gives(zero@.1));
        self.abs_sub_from(rhs, zero)
    }
}

impl<T: Field + Signed> DualNumber<T> {
    /// The absolute value: the dual part is scaled by the sign of the real
    /// part.
    pub fn abs(self) -> (r: Self)
        requires
            self@.0.neg_req(),
            forall|m: T, sg: T| abs_defined(self@, m, sg),
        ensures
            exists|m: T, sg: T|
                #[trigger] abs_gives(self@.0, m)
                && #[trigger] signum_gives(self@.0, sg)
                && r@.0 == m
                && (T::obeys_mul_spec() ==> r@ == abs_rule(self@, m, sg))
                && #[trigger] prod_of(self@.1, sg, r@.1),
    {
        let re = self.real_part();
        let m = ask_abs(&re);
        let sg = ask_signum(&re);
        assert(abs_defined(self@, m, sg));
        assert(abs_rule(self@, m, sg).0 == m);
        self.abs_from(m, sg)
    }

    /// The sign of the real part, as a constant.
    pub fn signum(self) -> (r: Self)
        ensures
            signum_gives(self@.0, r@.0),
            zero_gives(r@.1),
    {
        DualNumber::from_real(ask_signum(self.real_ref()))
    }

    /// Whether the real part is above zero.
    pub fn is_positive(&self) -> (r: bool)
        ensures
            is_positive_gives(self@.0, r),
    {
        ask_is_positive(self.real_ref())
    }

    /// Whether the real part is below zero.
    pub fn is_negative(&self) -> (r: bool)
        ensures
            is_negative_gives(self@.0, r),
    {
        ask_is_negative(self.real_ref())
    }
}

} // verus!
