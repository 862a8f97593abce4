//! The ring operations on dual numbers, each with the rule of calculus by
//! which it combines the dual parts.
//!
//! Every operation has a model on pairs (`sum`, `product`, ...) and a
//! predicate (`sum_defined`, ...) that says when the scalar operations it
//! performs may be called, whatever the ones before them gave.

use vstd::prelude::*;
use core::ops::{Add, Div, Mul, Neg, Sub};
use num_traits::{One, Zero};
use vstd::std_specs::ops::{AddSpec, DivSpec, MulSpec, NegSpec, SubSpec};
use crate::dual::DualNumber;
use crate::calls::{ask_is_zero, ask_one, ask_zero, is_zero_gives, one_gives, zero_gives};
use crate::scalar::{diff_of, neg_of, prod_of, quot_of, sum_of};

verus! {

/// The reason an operation gives no dual number.
#[derive(Debug, Clone, Copy, PartialEq, Eq, Structural)]
pub enum DualError {
    /// The operation has no derivative rule.
    Unsupported,
    /// A coefficient of the rule does not fit the scalar type.
    Cast,
}

/// `a + b` on pairs: the derivative of a sum is the sum of the derivatives.
pub open spec fn sum<T: Add<Output = T>>(a: (T, T), b: (T, T)) -> (T, T) {
    (a.0.add_spec(b.0), a.1.add_spec(b.1))
}

/// The two additions of `sum` may be called.
pub open spec fn sum_defined<T: Add<Output = T>>(a: (T, T), b: (T, T)) -> bool {
    a.0.add_req(b.0) && a.1.add_req(b.1)
}

/// `a - b` on pairs.
pub open spec fn difference<T: Sub<Output = T>>(a: (T, T), b: (T, T)) -> (T, T) {
    (a.0.sub_spec(b.0), a.1.sub_spec(b.1))
}

/// The two subtractions of `difference` may be called.
pub open spec fn difference_defined<T: Sub<Output = T>>(a: (T, T), b: (T, T)) -> bool {
    a.0.sub_req(b.0) && a.1.sub_req(b.1)
}

/// `a * b` on pairs, by the product rule.
pub open spec fn product<T: Add<Output = T> + Mul<Output = T>>(a: (T, T), b: (T, T)) -> (T, T) {
    (a.0.mul_spec(b.0), a.0.mul_spec(b.1).add_spec(a.1.mul_spec(b.0)))
}

/// The scalar operations of `product` may be called.
pub open spec fn product_defined<T: Add<Output = T> + Mul<Output = T>>(
    a: (T, T),
    b: (T, T),
) -> bool {
    &&& a.0.mul_req(b.0)
    &&& a.0.mul_req(b.1)
    &&& a.1.mul_req(b.0)
    &&& forall|p: T, q: T|
        prod_of(a.0, b.1, p) && prod_of(a.1, b.0, q) ==> #[trigger] p.add_req(q)
}

/// `a / b` on pairs, by the quotient rule.
pub open spec fn quotient<T: Sub<Output = T> + Mul<Output = T> + Div<Output = T>>(
    a: (T, T),
    b: (T, T),
) -> (T, T) {
    (
        a.0.div_spec(b.0),
        a.1.mul_spec(b.0).sub_spec(a.0.mul_spec(b.1)).div_spec(b.0.mul_spec(b.0)),
    )
}

/// The scalar operations of `quotient` may be called.
pub open spec fn quotient_defined<T: Sub<Output = T> + Mul<Output = T> + Div<Output = T>>(
    a: (T, T),
    b: (T, T),
) -> bool {
    &&& a.0.div_req(b.0)
    &&& a.1.mul_req(b.0)
    &&& a.0.mul_req(b.1)
    &&& b.0.mul_req(b.0)
    &&& forall|p: T, q: T|
        prod_of(a.1, b.0, p) && prod_of(a.0, b.1, q) ==> #[trigger] p.sub_req(q)
    &&& forall|p: T, q: T, n: T, m: T|
        prod_of(a.1, b.0, p) && prod_of(a.0, b.1, q) && #[trigger] diff_of(p, q, n) && prod_of(
            b.0,
            b.0,
            m,
        ) ==> #[trigger] n.div_req(m)
}

/// `r` may come out of `a + b` on pairs.
pub open spec fn sum_gives<T: Add<Output = T>>(a: (T, T), b: (T, T), r: (T, T)) -> bool {
    sum_of(a.0, b.0, r.0) && sum_of(a.1, b.1, r.1)
}

/// `r` may come out of `a - b` on pairs.
pub open spec fn difference_gives<T: Sub<Output = T>>(a: (T, T), b: (T, T), r: (T, T)) -> bool {
    diff_of(a.0, b.0, r.0) && diff_of(a.1, b.1, r.1)
}

/// `r` may come out of `a * b` on pairs: each scalar operation of the
/// product rule gave the value that the next one took.
pub open spec fn product_gives<T: Add<Output = T> + Mul<Output = T>>(
    a: (T, T),
    b: (T, T),
    r: (T, T),
) -> bool {
    &&& prod_of(a.0, b.0, r.0)
    &&& exists|p: T, q: T| #[trigger]
        prod_of(a.0, b.1, p) && #[trigger] prod_of(a.1, b.0, q) && sum_of(p, q, r.1)
}

/// `r` may come out of `a / b` on pairs: each scalar operation of the
/// quotient rule gave the value that the next one took.
pub open spec fn quotient_gives<T: Sub<Output = T> + Mul<Output = T> + Div<Output = T>>(
    a: (T, T),
    b: (T, T),
    r: (T, T),
) -> bool {
    &&& quot_of(a.0, b.0, r.0)
    &&& exists|p: T, q: T, n: T, m: T| #[trigger]
        prod_of(a.1, b.0, p) && #[trigger] prod_of(a.0, b.1, q) && #[trigger] diff_of(p, q, n)
            && #[trigger] prod_of(b.0, b.0, m) && quot_of(n, m, r.1)
}

/// `-a` on pairs.
pub open spec fn negation<T: Neg<Output = T>>(a: (T, T)) -> (T, T) {
    (a.0.neg_spec(), a.1.neg_spec())
}

impl<T: Copy + Add<Output = T>> DualNumber<T> {
    /// The sum of two dual numbers.
    pub fn add(self, rhs: Self) -> (r: Self)
        requires
            sum_defined(self@, rhs@),
        ensures
            sum_gives(self@, rhs@, r@),
            T::obeys_add_spec() ==> r@ == sum(self@, rhs@),
    {
        DualNumber::new(self.real_part().add(rhs.real_part()), self.dual().add(rhs.dual()))
    }

    /// The sum of a dual number and a constant: the dual part stays.
    pub fn add_scalar(self, rhs: T) -> (r: Self)
        requires
            self@.0.add_req(rhs),
        ensures
            sum_of(self@.0, rhs, r@.0),
            T::obeys_add_spec() ==> r@.0 == self@.0.add_spec(rhs),
            r@.1 == self@.1,
    {
        DualNumber::new(self.real_part().add(rhs), self.dual())
    }
}

impl<T: Copy + Sub<Output = T>> DualNumber<T> {
    /// The difference of two dual numbers.
    pub fn sub(self, rhs: Self) -> (r: Self)
        requires
            difference_defined(self@, rhs@),
        ensures
            difference_gives(self@, rhs@, r@),
            T::obeys_sub_spec() ==> r@ == difference(self@, rhs@),
    {
        DualNumber::new(self.real_part().sub(rhs.real_part()), self.dual().sub(rhs.dual()))
    }

    /// The difference of a dual number and a constant: the dual part stays.
    pub fn sub_scalar(self, rhs: T) -> (r: Self)
        requires
            self@.0.sub_req(rhs),
        ensures
            diff_of(self@.0, rhs, r@.0),
            T::obeys_sub_spec() ==> r@.0 == self@.0.sub_spec(rhs),
            r@.1 == self@.1,
    {
        DualNumber::new(self.real_part().sub(rhs), self.dual())
    }
}

impl<T: Copy + Add<Output = T> + Mul<Output = T>> DualNumber<T> {
    /// The product of two dual numbers.
    pub fn mul(self, rhs: Self) -> (r: Self)
        requires
            product_defined(self@, rhs@),
        ensures
            product_gives(self@, rhs@, r@),
            T::obeys_mul_spec() ==> r@.0 == product(self@, rhs@).0,
            T::obeys_mul_spec() && T::obeys_add_spec() ==> r@ == product(self@, rhs@),
    {
        let re = self.real_part().mul(rhs.real_part());
        let p = self.real_part().mul(rhs.dual());
        let q = self.dual().mul(rhs.real_part());
        let du = p.add(q);
        assert(prod_of(self@.0, rhs@.1, p) && prod_of(self@.1, rhs@.0, q) && sum_of(p, q, du));
        DualNumber::new(re, du)
    }

    /// The product of a dual number and a constant: the product with the
    /// dual number whose real part is `rhs` and whose dual part is the scalar
    /// type's zero.
    pub fn mul_scalar(self, rhs: T) -> (r: Self) where T: Zero
        requires
            forall|z: T| #[trigger] zero_gives(z) ==> product_defined(self@, (rhs, z)),
        ensures
            T::obeys_mul_spec() ==> r@.0 == self@.0.mul_spec(rhs),
            exists|z: T| #[trigger]
                zero_gives(z) && product_gives(self@, (rhs, z), r@) && (T::obeys_mul_spec()
                    && T::obeys_add_spec() ==> r@ == product(self@, (rhs, z))),
    {
        let c = DualNumber::from_real(rhs);
        assert(c@ == (rhs, c@.1) && product_defined(self@, (rhs, c@.1)));
        self.mul(c)
    }
}

impl<T: Copy + Sub<Output = T> + Mul<Output = T> + Div<Output = T>> DualNumber<T> {
    /// The quotient of two dual numbers.
    pub fn div(self, rhs: Self) -> (r: Self)
        requires
            quotient_defined(self@, rhs@),
        ensures
            quotient_gives(self@, rhs@, r@),
            T::obeys_div_spec() ==> r@.0 == quotient(self@, rhs@).0,
            T::obeys_div_spec() && T::obeys_mul_spec() && T::obeys_sub_spec() ==> r@ == quotient(
                self@,
                rhs@,
            ),
    {
        let re = self.real_part().div(rhs.real_part());
        let p = self.dual().mul(rhs.real_part());
        let q = self.real_part().mul(rhs.dual());
        let n = p.sub(q);
        let m = rhs.real_part().mul(rhs.real_part());
        assert(diff_of(p, q, n));
        let du = n.div(m);
        assert(prod_of(self@.1, rhs@.0, p) && prod_of(self@.0, rhs@.1, q) && prod_of(
            rhs@.0,
            rhs@.0,
            m,
        ) && quot_of(n, m, du));
        DualNumber::new(re, du)
    }

    /// The quotient of a dual number and a constant: the quotient by the
    /// dual number whose real part is `rhs` and whose dual part is the scalar
    /// type's zero.
    pub fn div_scalar(self, rhs: T) -> (r: Self) where T: Zero
        requires
            forall|z: T| #[trigger] zero_gives(z) ==> quotient_defined(self@, (rhs, z)),
        ensures
            T::obeys_div_spec() ==> r@.0 == self@.0.div_spec(rhs),
            exists|z: T| #[trigger]
                zero_gives(z) && quotient_gives(self@, (rhs, z), r@) && (T::obeys_div_spec()
                    && T::obeys_mul_spec() && T::obeys_sub_spec() ==> r@ == quotient(
                    self@,
                    (rhs, z),
                )),
    {
        let c = DualNumber::from_real(rhs);
        assert(c@ == (rhs, c@.1) && quotient_defined(self@, (rhs, c@.1)));
        self.div(c)
    }

    /// The remainder has no derivative rule: this fails on every pair of
    /// operands.
    pub fn rem(self, rhs: Self) -> (r: Result<Self, DualError>)
        ensures
            r == Err::<Self, DualError>(DualError::Unsupported),
    {
        Err(DualError::Unsupported)
    }
}

impl<T: Copy + Neg<Output = T>> DualNumber<T> {
    /// The negation of a dual number.
    pub fn neg(self) -> (r: Self)
        requires
            self@.0.neg_req(),
            self@.1.neg_req(),
        ensures
            neg_of(self@.0, r@.0),
            neg_of(self@.1, r@.1),
            T::obeys_neg_spec() ==> r@ == negation(self@),
    {
        DualNumber::new(self.real_part().neg(), self.dual().neg())
    }
}

impl<T: Zero> DualNumber<T> {
    /// The additive identity: both parts are the scalar type's zero.
    pub fn zero() -> (r: Self)
        ensures
            zero_gives(r@.0),
            zero_gives(r@.1),
    {
        DualNumber::new(ask_zero(), ask_zero())
    }

    /// Whether the real part is the scalar type's zero; the dual part is not
    /// looked at.
    pub fn is_zero(&self) -> (r: bool)
        ensures
            is_zero_gives(self@.0, r),
    {
        ask_is_zero(self.real_ref())
    }
}

impl<T: Zero + One> DualNumber<T> {
    /// The multiplicative identity: the scalar type's one as a constant.
    pub fn one() -> (r: Self)
        ensures
            one_gives(r@.0),
            zero_gives(r@.1),
    {
        DualNumber::new(ask_one(), ask_zero())
    }
}

} // verus!
