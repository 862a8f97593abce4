//! The derivative rules of the elementary functions, as functions on pairs.
//!
//! A rule takes the operand and the values that the scalar type computed
//! for it, and gives the pair that the function returns. Beside each rule
//! stands the predicate under which its scalar operations may be called.

use vstd::prelude::*;
use vstd::std_specs::ops::{AddSpec, DivSpec, MulSpec, NegSpec, SubSpec};
use core::ops::Sub;
use crate::order::greater;
use crate::ring::{difference, quotient, quotient_defined};
use crate::scalar::{diff_of, neg_of, prod_of, quot_of, sum_of, Field};

verus! {

/// The square root on pairs: the real part is `v`, the dual part
/// `dual / (two * v)`.
pub open spec fn sqrt_rule<T: Field>(x: (T, T), v: T, two: T) -> (T, T) {
    (v, x.1.div_spec(two.mul_spec(v)))
}

/// The scalar operations of `sqrt_rule` may be called, whatever the ones before
/// them gave.
pub open spec fn sqrt_defined<T: Field>(x: (T, T), v: T, two: T) -> bool {
    &&& two.mul_req(v)
    &&& forall|t1: T| #[trigger] prod_of(two, v, t1) ==> #[trigger] x.1.div_req(t1)
}

/// The cube root on pairs: the real part is `v`, the dual part
/// `dual / ((three * v) * v)`.
pub open spec fn cbrt_rule<T: Field>(x: (T, T), v: T, three: T) -> (T, T) {
    (v, x.1.div_spec(three.mul_spec(v).mul_spec(v)))
}

/// The scalar operations of `cbrt_rule` may be called, whatever the ones before
/// them gave.
pub open spec fn cbrt_defined<T: Field>(x: (T, T), v: T, three: T) -> bool {
    &&& three.mul_req(v)
    &&& forall|t1: T| #[trigger] prod_of(three, v, t1) ==> #[trigger] t1.mul_req(v)
    &&& forall|t1: T, t2: T|
        #[trigger] prod_of(three, v, t1) && #[trigger] prod_of(t1, v, t2) ==>
            #[trigger] x.1.div_req(t2)
}

/// The exponential on pairs: the real part is `v`, the dual part `dual * v`.
pub open spec fn exp_rule<T: Field>(x: (T, T), v: T) -> (T, T) {
    (v, x.1.mul_spec(v))
}

/// The scalar operations of `exp_rule` may be called, whatever the ones before
/// them gave.
pub open spec fn exp_defined<T: Field>(x: (T, T), v: T) -> bool {
    x.1.mul_req(v)
}

/// Two to the power on pairs: the real part is `v`, the dual part
/// `(dual * ln2) * v`.
pub open spec fn exp2_rule<T: Field>(x: (T, T), v: T, ln2: T) -> (T, T) {
    (v, x.1.mul_spec(ln2).mul_spec(v))
}

/// The scalar operations of `exp2_rule` may be called, whatever the ones before
/// them gave.
pub open spec fn exp2_defined<T: Field>(x: (T, T), v: T, ln2: T) -> bool {
    &&& x.1.mul_req(ln2)
    &&& forall|t1: T| #[trigger] prod_of(x.1, ln2, t1) ==> #[trigger] t1.mul_req(v)
}

/// The natural logarithm on pairs: the real part is `v`, the dual part
/// `dual / real`.
pub open spec fn ln_rule<T: Field>(x: (T, T), v: T) -> (T, T) {
    (v, x.1.div_spec(x.0))
}

/// The scalar operations of `ln_rule` may be called, whatever the ones before
/// them gave.
pub open spec fn ln_defined<T: Field>(x: (T, T), v: T) -> bool {
    x.1.div_req(x.0)
}

/// The logarithm to base 2 on pairs: the real part is `v`, the dual part
/// `dual / (real * ln2)`.
pub open spec fn log2_rule<T: Field>(x: (T, T), v: T, ln2: T) -> (T, T) {
    (v, x.1.div_spec(x.0.mul_spec(ln2)))
}

/// The scalar operations of `log2_rule` may be called, whatever the ones before
/// them gave.
pub open spec fn log2_defined<T: Field>(x: (T, T), v: T, ln2: T) -> bool {
    &&& x.0.mul_req(ln2)
    &&& forall|t1: T| #[trigger] prod_of(x.0, ln2, t1) ==> #[trigger] x.1.div_req(t1)
}

/// The logarithm to base 10 on pairs: the real part is `v`, the dual part
/// `dual / (real * ln10)`.
pub open spec fn log10_rule<T: Field>(x: (T, T), v: T, ln10: T) -> (T, T) {
    (v, x.1.div_spec(x.0.mul_spec(ln10)))
}

/// The scalar operations of `log10_rule` may be called, whatever the ones
/// before
/// them gave.
pub open spec fn log10_defined<T: Field>(x: (T, T), v: T, ln10: T) -> bool {
    &&& x.0.mul_req(ln10)
    &&& forall|t1: T| #[trigger] prod_of(x.0, ln10, t1) ==> #[trigger] x.1.div_req(t1)
}

/// An integer power `n` on pairs: the real part is `v`, the dual part
/// `(nf * pm) * dual`.
pub open spec fn powi_rule<T: Field>(x: (T, T), v: T, nf: T, pm: T) -> (T, T) {
    (v, nf.mul_spec(pm).mul_spec(x.1))
}

/// The scalar operations of `powi_rule` may be called, whatever the ones before
/// them gave.
pub open spec fn powi_defined<T: Field>(x: (T, T), v: T, nf: T, pm: T) -> bool {
    &&& nf.mul_req(pm)
    &&& forall|t1: T| #[trigger] prod_of(nf, pm, t1) ==> #[trigger] t1.mul_req(x.1)
}

/// `self` raised to the power `y` on pairs: the real part is `v`, the dual
/// part `((y.real * pm) * dual) + ((v * l) * y.dual)`.
pub open spec fn powf_rule<T: Field>(x: (T, T), y: (T, T), v: T, pm: T, l: T) -> (T, T) {
    (v, y.0.mul_spec(pm).mul_spec(x.1).add_spec(v.mul_spec(l).mul_spec(y.1)))
}

/// The scalar operations of `powf_rule` may be called, whatever the ones before
/// them gave.
pub open spec fn powf_defined<T: Field>(x: (T, T), y: (T, T), v: T, pm: T, l: T) -> bool {
    &&& y.0.mul_req(pm)
    &&& forall|t1: T| #[trigger] prod_of(y.0, pm, t1) ==> #[trigger] t1.mul_req(x.1)
    &&& v.mul_req(l)
    &&& forall|t3: T| #[trigger] prod_of(v, l, t3) ==> #[trigger] t3.mul_req(y.1)
    &&& forall|t1: T, t2: T, t3: T, t4: T|
        #[trigger] prod_of(y.0, pm, t1) && #[trigger] prod_of(t1, x.1, t2) &&
            #[trigger] prod_of(v, l, t3) && #[trigger] prod_of(t3, y.1, t4) ==>
                #[trigger] t2.add_req(t4)
}

/// The sine on pairs: the real part is `s`, the dual part `dual * c`.
pub open spec fn sin_rule<T: Field>(x: (T, T), s: T, c: T) -> (T, T) {
    (s, x.1.mul_spec(c))
}

/// The scalar operations of `sin_rule` may be called, whatever the ones before
/// them gave.
pub open spec fn sin_defined<T: Field>(x: (T, T), s: T, c: T) -> bool {
    x.1.mul_req(c)
}

/// The cosine on pairs: the real part is `c`, the dual part `-dual * s`.
pub open spec fn cos_rule<T: Field>(x: (T, T), s: T, c: T) -> (T, T) {
    (c, x.1.neg_spec().mul_spec(s))
}

/// The scalar operations of `cos_rule` may be called, whatever the ones before
/// them gave.
pub open spec fn cos_defined<T: Field>(x: (T, T), s: T, c: T) -> bool {
    &&& x.1.neg_req()
    &&& forall|t1: T| #[trigger] neg_of(x.1, t1) ==> #[trigger] t1.mul_req(s)
}

/// The tangent on pairs: the real part is `t`, the dual part
/// `dual * ((t * t) + one)`.
pub open spec fn tan_rule<T: Field>(x: (T, T), t: T, one: T) -> (T, T) {
    (t, x.1.mul_spec(t.mul_spec(t).add_spec(one)))
}

/// The scalar operations of `tan_rule` may be called, whatever the ones before
/// them gave.
pub open spec fn tan_defined<T: Field>(x: (T, T), t: T, one: T) -> bool {
    &&& t.mul_req(t)
    &&& forall|t1: T| #[trigger] prod_of(t, t, t1) ==> #[trigger] t1.add_req(one)
    &&& forall|t1: T, t2: T|
        #[trigger] prod_of(t, t, t1) && #[trigger] sum_of(t1, one, t2) ==>
            #[trigger] x.1.mul_req(t2)
}

/// The arcsine on pairs: the real part is `v`, the dual part `dual / root`.
pub open spec fn asin_rule<T: Field>(x: (T, T), v: T, root: T) -> (T, T) {
    (v, x.1.div_spec(root))
}

/// The scalar operations of `asin_rule` may be called, whatever the ones before
/// them gave.
pub open spec fn asin_defined<T: Field>(x: (T, T), v: T, root: T) -> bool {
    x.1.div_req(root)
}

/// The arccosine on pairs: the real part is `v`, the dual part `-dual / root`.
pub open spec fn acos_rule<T: Field>(x: (T, T), v: T, root: T) -> (T, T) {
    (v, x.1.neg_spec().div_spec(root))
}

/// The scalar operations of `acos_rule` may be called, whatever the ones before
/// them gave.
pub open spec fn acos_defined<T: Field>(x: (T, T), v: T, root: T) -> bool {
    &&& x.1.neg_req()
    &&& forall|t1: T| #[trigger] neg_of(x.1, t1) ==> #[trigger] t1.div_req(root)
}

/// The arctangent on pairs: the real part is `v`, the dual part
/// `dual / (sq + one)`.
pub open spec fn atan_rule<T: Field>(x: (T, T), v: T, sq: T, one: T) -> (T, T) {
    (v, x.1.div_spec(sq.add_spec(one)))
}

/// The scalar operations of `atan_rule` may be called, whatever the ones before
/// them gave.
pub open spec fn atan_defined<T: Field>(x: (T, T), v: T, sq: T, one: T) -> bool {
    &&& sq.add_req(one)
    &&& forall|t1: T| #[trigger] sum_of(sq, one, t1) ==> #[trigger] x.1.div_req(t1)
}

/// The four-quadrant arctangent of `self / y` on pairs: the real part is `v`,
/// the dual part `((y.real * dual) - (real * y.dual)) / (ysq + xsq)`.
pub open spec fn atan2_rule<T: Field>(x: (T, T), y: (T, T), v: T, ysq: T, xsq: T) -> (T, T) {
    (v, y.0.mul_spec(x.1).sub_spec(x.0.mul_spec(y.1)).div_spec(ysq.add_spec(xsq)))
}

/// The scalar operations of `atan2_rule` may be called, whatever the ones
/// before
/// them gave.
pub open spec fn atan2_defined<T: Field>(x: (T, T), y: (T, T), v: T, ysq: T, xsq: T) -> bool {
    &&& y.0.mul_req(x.1)
    &&& x.0.mul_req(y.1)
    &&& forall|t1: T, t2: T|
        #[trigger] prod_of(y.0, x.1, t1) && #[trigger] prod_of(x.0, y.1, t2) ==>
            #[trigger] t1.sub_req(t2)
    &&& ysq.add_req(xsq)
    &&& forall|t1: T, t2: T, t3: T, t4: T|
        #[trigger] prod_of(y.0, x.1, t1) && #[trigger] prod_of(x.0, y.1, t2) &&
            #[trigger] diff_of(t1, t2, t3) && #[trigger] sum_of(ysq, xsq, t4) ==>
                #[trigger] t3.div_req(t4)
}

/// `exp(x) - 1` on pairs: the real part is `v`, the dual part `dual * e`.
pub open spec fn exp_m1_rule<T: Field>(x: (T, T), v: T, e: T) -> (T, T) {
    (v, x.1.mul_spec(e))
}

/// The scalar operations of `exp_m1_rule` may be called, whatever the ones
/// before
/// them gave.
pub open spec fn exp_m1_defined<T: Field>(x: (T, T), v: T, e: T) -> bool {
    x.1.mul_req(e)
}

/// `ln(1 + x)` on pairs: the real part is `v`, the dual part
/// `dual / (real + one)`.
pub open spec fn ln_1p_rule<T: Field>(x: (T, T), v: T, one: T) -> (T, T) {
    (v, x.1.div_spec(x.0.add_spec(one)))
}

/// The scalar operations of `ln_1p_rule` may be called, whatever the ones
/// before
/// them gave.
pub open spec fn ln_1p_defined<T: Field>(x: (T, T), v: T, one: T) -> bool {
    &&& x.0.add_req(one)
    &&& forall|t1: T| #[trigger] sum_of(x.0, one, t1) ==> #[trigger] x.1.div_req(t1)
}

/// The hyperbolic sine on pairs: the real part is `v`, the dual part
/// `dual * ch`.
pub open spec fn sinh_rule<T: Field>(x: (T, T), v: T, ch: T) -> (T, T) {
    (v, x.1.mul_spec(ch))
}

/// The scalar operations of `sinh_rule` may be called, whatever the ones before
/// them gave.
pub open spec fn sinh_defined<T: Field>(x: (T, T), v: T, ch: T) -> bool {
    x.1.mul_req(ch)
}

/// The hyperbolic cosine on pairs: the real part is `v`, the dual part
/// `dual * sh`.
pub open spec fn cosh_rule<T: Field>(x: (T, T), v: T, sh: T) -> (T, T) {
    (v, x.1.mul_spec(sh))
}

/// The scalar operations of `cosh_rule` may be called, whatever the ones before
/// them gave.
pub open spec fn cosh_defined<T: Field>(x: (T, T), v: T, sh: T) -> bool {
    x.1.mul_req(sh)
}

/// The hyperbolic tangent on pairs: the real part is `v`, the dual part
/// `dual * (one - sq)`.
pub open spec fn tanh_rule<T: Field>(x: (T, T), v: T, sq: T, one: T) -> (T, T) {
    (v, x.1.mul_spec(one.sub_spec(sq)))
}

/// The scalar operations of `tanh_rule` may be called, whatever the ones before
/// them gave.
pub open spec fn tanh_defined<T: Field>(x: (T, T), v: T, sq: T, one: T) -> bool {
    &&& one.sub_req(sq)
    &&& forall|t1: T| #[trigger] diff_of(one, sq, t1) ==> #[trigger] x.1.mul_req(t1)
}

/// The inverse hyperbolic sine on pairs: the real part is `v`, the dual part
/// `dual / root`.
pub open spec fn asinh_rule<T: Field>(x: (T, T), v: T, root: T) -> (T, T) {
    (v, x.1.div_spec(root))
}

/// The scalar operations of `asinh_rule` may be called, whatever the ones
/// before
/// them gave.
pub open spec fn asinh_defined<T: Field>(x: (T, T), v: T, root: T) -> bool {
    x.1.div_req(root)
}

/// The inverse hyperbolic cosine on pairs: the real part is `v`, the dual part
/// `dual / (ra * rb)`.
pub open spec fn acosh_rule<T: Field>(x: (T, T), v: T, ra: T, rb: T) -> (T, T) {
    (v, x.1.div_spec(ra.mul_spec(rb)))
}

/// The scalar operations of `acosh_rule` may be called, whatever the ones
/// before
/// them gave.
pub open spec fn acosh_defined<T: Field>(x: (T, T), v: T, ra: T, rb: T) -> bool {
    &&& ra.mul_req(rb)
    &&& forall|t1: T| #[trigger] prod_of(ra, rb, t1) ==> #[trigger] x.1.div_req(t1)
}

/// The inverse hyperbolic tangent on pairs: the real part is `v`, the dual
/// part `dual / (one - sq)`.
pub open spec fn atanh_rule<T: Field>(x: (T, T), v: T, sq: T, one: T) -> (T, T) {
    (v, x.1.div_spec(one.sub_spec(sq)))
}

/// The scalar operations of `atanh_rule` may be called, whatever the ones
/// before
/// them gave.
pub open spec fn atanh_defined<T: Field>(x: (T, T), v: T, sq: T, one: T) -> bool {
    &&& one.sub_req(sq)
    &&& forall|t1: T| #[trigger] diff_of(one, sq, t1) ==> #[trigger] x.1.div_req(t1)
}

/// The length of the hypotenuse over `self` and `y` on pairs: the real part is
/// `h`, the dual part `((real * y.dual) + (y.real * dual)) / h`.
pub open spec fn hypot_rule<T: Field>(x: (T, T), y: (T, T), h: T) -> (T, T) {
    (h, x.0.mul_spec(y.1).add_spec(y.0.mul_spec(x.1)).div_spec(h))
}

/// The scalar operations of `hypot_rule` may be called, whatever the ones
/// before
/// them gave.
pub open spec fn hypot_defined<T: Field>(x: (T, T), y: (T, T), h: T) -> bool {
    &&& x.0.mul_req(y.1)
    &&& y.0.mul_req(x.1)
    &&& forall|t1: T, t2: T|
        #[trigger] prod_of(x.0, y.1, t1) && #[trigger] prod_of(y.0, x.1, t2) ==>
            #[trigger] t1.add_req(t2)
    &&& forall|t1: T, t2: T, t3: T|
        #[trigger] prod_of(x.0, y.1, t1) && #[trigger] prod_of(y.0, x.1, t2) &&
            #[trigger] sum_of(t1, t2, t3) ==> #[trigger] t3.div_req(h)
}

/// `self * a + b` in one step on pairs: the real part is `v`, the dual part
/// `((dual * a.real) + (real * a.dual)) + b.dual`.
pub open spec fn mul_add_rule<T: Field>(x: (T, T), a: (T, T), b: (T, T), v: T) -> (T, T) {
    (v, x.1.mul_spec(a.0).add_spec(x.0.mul_spec(a.1)).add_spec(b.1))
}

/// The scalar operations of `mul_add_rule` may be called, whatever the ones
/// before
/// them gave.
pub open spec fn mul_add_defined<T: Field>(x: (T, T), a: (T, T), b: (T, T), v: T) -> bool {
    &&& x.1.mul_req(a.0)
    &&& x.0.mul_req(a.1)
    &&& forall|t1: T, t2: T|
        #[trigger] prod_of(x.1, a.0, t1) && #[trigger] prod_of(x.0, a.1, t2) ==>
            #[trigger] t1.add_req(t2)
    &&& forall|t1: T, t2: T, t3: T|
        #[trigger] prod_of(x.1, a.0, t1) && #[trigger] prod_of(x.0, a.1, t2) &&
            #[trigger] sum_of(t1, t2, t3) ==> #[trigger] t3.add_req(b.1)
}

/// The fractional part on pairs: the real part is `v`, the dual part `dual`.
pub open spec fn fract_rule<T: Field>(x: (T, T), v: T) -> (T, T) {
    (v, x.1)
}

/// The absolute value on pairs: the real part is `m`, the dual part
/// `dual * sg`.
pub open spec fn abs_rule<T: Field>(x: (T, T), m: T, sg: T) -> (T, T) {
    (m, x.1.mul_spec(sg))
}

/// The scalar operations of `abs_rule` may be called, whatever the ones before
/// them gave.
pub open spec fn abs_defined<T: Field>(x: (T, T), m: T, sg: T) -> bool {
    x.1.mul_req(sg)
}

/// A piecewise constant function on pairs: the real part is `v`, the dual part
/// `zero`.
pub open spec fn step_rule<T: Field>(x: (T, T), v: T, zero: T) -> (T, T) {
    (v, zero)
}

/// The logarithm to a base on pairs: the quotient of the natural logarithms
/// of operand and base, where `lx` is `ln(real)` and `lb` is `ln(y.real)`.
pub open spec fn log_rule<T: Field>(x: (T, T), y: (T, T), lx: T, lb: T) -> (T, T) {
    quotient(ln_rule(x, lx), ln_rule(y, lb))
}

/// The scalar operations of `log_rule` may be called, whatever the ones before
/// them gave.
pub open spec fn log_defined<T: Field>(x: (T, T), y: (T, T), lx: T, lb: T) -> bool {
    &&& x.1.div_req(x.0)
    &&& y.1.div_req(y.0)
    &&& forall|p: T, q: T| #[trigger]
        quot_of(x.1, x.0, p) && #[trigger] quot_of(y.1, y.0, q) ==> quotient_defined(
            (lx, p),
            (lb, q),
        )
}

/// The positive difference on pairs: `x - y` where the real part of `x` is
/// the greater, else `zero`.
pub open spec fn abs_sub_rule<T: Sub<Output = T> + PartialOrd>(
    x: (T, T),
    y: (T, T),
    zero: (T, T),
) -> (T, T) {
    if greater(x.0, y.0) {
        difference(x, y)
    } else {
        zero
    }
}

} // verus!
