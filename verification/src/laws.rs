//! What holds of the operations together. Each law is stated of every value
//! that the functions it names may return.

use vstd::prelude::*;
use core::cmp::Ordering;
use core::ops::Neg;
use vstd::std_specs::cmp::{PartialEqSpec, PartialOrdSpec};
use vstd::std_specs::ops::{MulSpec, NegSpec};
use crate::dual::DualNumber;
use crate::rules::{cos_rule, sin_rule, step_rule};
use crate::scalar::Field;

verus! {

/// Taking a dual number apart gives back the parts it was made of.
pub proof fn law_construction_round_trip<T>(re: T, du: T, made: DualNumber<T>, parts: (T, T))
    requires
        call_ensures(DualNumber::<T>::new, (re, du), made),
        call_ensures(DualNumber::<T>::into_tuple, (made,), parts),
    ensures
        parts == (re, du),
{
}

/// Equality reads the real parts only: where two pairs of dual numbers agree
/// in their real parts, they are equal or unequal together.
pub proof fn law_equality_ignores_dual<T: PartialEq>(
    a: DualNumber<T>,
    b: DualNumber<T>,
    c: DualNumber<T>,
    d: DualNumber<T>,
)
    requires
        a@.0 == c@.0,
        b@.0 == d@.0,
    ensures
        a.eq_spec(&b) == c.eq_spec(&d),
        a.eq_spec(&b) == a@.0.eq_spec(&b@.0),
{
}

/// The order reads the real parts only: where two pairs of dual numbers
/// agree in their real parts, they are ordered alike, and as their real
/// parts are.
pub proof fn law_order_ignores_dual<T: PartialOrd>(
    a: DualNumber<T>,
    b: DualNumber<T>,
    c: DualNumber<T>,
    d: DualNumber<T>,
)
    requires
        a@.0 == c@.0,
        b@.0 == d@.0,
    ensures
        a.partial_cmp_spec(&b) == c.partial_cmp_spec(&d),
        a.partial_cmp_spec(&b) == a@.0.partial_cmp_spec(&b@.0),
{
}

/// The conjugate of the conjugate is the dual number itself, for a scalar
/// type whose negation is a function that undoes itself on the dual part.
pub proof fn law_conjugate_involution<T: Copy + Neg<Output = T>>(
    x: DualNumber<T>,
    once: DualNumber<T>,
    twice: DualNumber<T>,
)
    requires
        T::obeys_neg_spec(),
        x@.1.neg_spec().neg_spec() == x@.1,
        call_ensures(DualNumber::<T>::conjugate, (x,), once),
        call_ensures(DualNumber::<T>::conjugate, (once,), twice),
    ensures
        twice == x,
{
    twice.lemma_same_parts(x);
}

/// `max` returns one of its operands as it is, dual part included: the
/// first where its real part is the greater, else the second.
pub proof fn law_max_selects<T: Copy + PartialOrd>(
    a: DualNumber<T>,
    b: DualNumber<T>,
    r: DualNumber<T>,
)
    requires
        call_ensures(DualNumber::<T>::max, (a, b), r),
    ensures
        r == a || r == b,
        T::obeys_partial_cmp_spec() ==> (r == a <== a@.0.partial_cmp_spec(&b@.0) == Some(
            Ordering::Greater,
        )),
        T::obeys_partial_cmp_spec() ==> (r == b <== a@.0.partial_cmp_spec(&b@.0) != Some(
            Ordering::Greater,
        )),
{
}

/// `min` returns one of its operands as it is, dual part included: the
/// first where its real part is the less, else the second.
pub proof fn law_min_selects<T: Copy + PartialOrd>(
    a: DualNumber<T>,
    b: DualNumber<T>,
    r: DualNumber<T>,
)
    requires
        call_ensures(DualNumber::<T>::min, (a, b), r),
    ensures
        r == a || r == b,
        T::obeys_partial_cmp_spec() ==> (r == a <== a@.0.partial_cmp_spec(&b@.0) == Some(
            Ordering::Less,
        )),
        T::obeys_partial_cmp_spec() ==> (r == b <== a@.0.partial_cmp_spec(&b@.0) != Some(
            Ordering::Less,
        )),
{
}

/// A piecewise constant function has the dual part zero, whatever the dual
/// part of its operand: two operands give the same pair for the same scalar
/// values.
pub proof fn law_step_forgets_dual<T: Field>(x: (T, T), y: (T, T), v: T, zero: T)
    ensures
        step_rule(x, v, zero).1 == zero,
        step_rule(x, v, zero) == step_rule(y, v, zero),
{
}

/// Sine and cosine taken at once are the sine and the cosine taken one by
/// one, for the same scalar sine and cosine and a scalar type whose product
/// and negation are functions.
pub proof fn law_sin_cos_agrees<T: Field>(
    x: DualNumber<T>,
    s: T,
    c: T,
    pair: (DualNumber<T>, DualNumber<T>),
    sine: DualNumber<T>,
    cosine: DualNumber<T>,
)
    requires
        T::obeys_mul_spec(),
        T::obeys_neg_spec(),
        call_ensures(DualNumber::<T>::sin_cos_from, (x, s, c), pair),
        call_ensures(DualNumber::<T>::sin_from, (x, s, c), sine),
        call_ensures(DualNumber::<T>::cos_from, (x, s, c), cosine),
    ensures
        pair.0 == sine,
        pair.1 == cosine,
        pair.0@ == sin_rule(x@, s, c),
        pair.1@ == cos_rule(x@, s, c),
{
    pair.0.lemma_same_parts(sine);
    pair.1.lemma_same_parts(cosine);
}

/// Over the 64-bit integers, whose operations are exact, the derivative of
/// `x * x` at `x` is `2 * x`: the dual part of the seed times itself, wherever
/// the products fit.
pub proof fn law_derivative_of_square(x: i64, seed: DualNumber<i64>, out: DualNumber<i64>)
    requires
        -0x4000_0000 <= x <= 0x4000_0000,
        seed@ == (x, 1i64),
        call_ensures(DualNumber::<i64>::mul, (seed, seed), out),
    ensures
        out@.0 == x * x,
        out@.1 == 2 * x,
{
    assert(-0x1000_0000_0000_0000 <= x * x <= 0x1000_0000_0000_0000) by (nonlinear_arith)
        requires
            -0x4000_0000 <= x <= 0x4000_0000,
    ;
}

/// Over the 64-bit integers, the derivative of `a * x + b` at any `x` is
/// `a`, wherever the product and the sum fit.
pub proof fn law_derivative_of_linear(
    a: i64,
    b: i64,
    x: i64,
    seed: DualNumber<i64>,
    slope: DualNumber<i64>,
    offset: DualNumber<i64>,
    scaled: DualNumber<i64>,
    out: DualNumber<i64>,
)
    requires
        -0x4000_0000 <= a <= 0x4000_0000,
        -0x4000_0000 <= x <= 0x4000_0000,
        -0x4000_0000 <= b <= 0x4000_0000,
        seed@ == (x, 1i64),
        slope@ == (a, 0i64),
        offset@ == (b, 0i64),
        call_ensures(DualNumber::<i64>::mul, (slope, seed), scaled),
        call_ensures(DualNumber::<i64>::add, (scaled, offset), out),
    ensures
        out@.0 == a * x + b,
        out@.1 == a,
{
    assert(-0x1000_0000_0000_0000 <= a * x <= 0x1000_0000_0000_0000) by (nonlinear_arith)
        requires
            -0x4000_0000 <= a <= 0x4000_0000,
            -0x4000_0000 <= x <= 0x4000_0000,
    ;
}

/// The remainder fails on every pair of operands.
pub proof fn law_rem_fails<T: Field>(
    a: DualNumber<T>,
    b: DualNumber<T>,
    r: Result<DualNumber<T>, crate::ring::DualError>,
)
    requires
        call_ensures(DualNumber::<T>::rem, (a, b), r),
    ensures
        r is Err,
{
}

} // verus!
