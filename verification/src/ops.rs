//! The operators `+`, `-`, `*`, `/` and unary `-` on dual numbers, and `+` and
//! `-` on a dual number and a scalar. Each is the method of the same name.
//! Product and quotient with a scalar go through the scalar type's zero and
//! are the methods `mul_scalar` and `div_scalar`.

use vstd::prelude::*;
use core::ops::{Add, Div, Mul, Neg, Sub};
use vstd::std_specs::ops::{
    AddSpec, AddSpecImpl, DivSpec, DivSpecImpl, MulSpec, MulSpecImpl, NegSpec, NegSpecImpl,
    SubSpec, SubSpecImpl,
};
use crate::dual::DualNumber;
use crate::ring::{
    difference, difference_defined, negation, product, product_defined, quotient,
    quotient_defined, sum, sum_defined,
};

verus! {

impl<T: Copy + Add<Output = T>> Add for DualNumber<T> {
    type Output = DualNumber<T>;

    /// The sum of two dual numbers.
    fn add(self, rhs: Self) -> (r: Self) {
        let r = DualNumber::add(self, rhs);
        proof {
            DualNumber::<T>::lemma_of(sum(self@, rhs@));
            if T::obeys_add_spec() {
                r.lemma_same_parts(DualNumber::of(sum(self@, rhs@)));
            }
        }
        r
    }
}

impl<T: Copy + Add<Output = T>> AddSpecImpl for DualNumber<T> {
    open spec fn obeys_add_spec() -> bool {
        T::obeys_add_spec()
    }

    open spec fn add_req(self, rhs: Self) -> bool {
        sum_defined(self@, rhs@)
    }

    open spec fn add_spec(self, rhs: Self) -> Self {
        DualNumber::of(sum(self@, rhs@))
    }
}

impl<T: Copy + Sub<Output = T>> Sub for DualNumber<T> {
    type Output = DualNumber<T>;

    /// The difference of two dual numbers.
    fn sub(self, rhs: Self) -> (r: Self) {
        let r = DualNumber::sub(self, rhs);
        proof {
            DualNumber::<T>::lemma_of(difference(self@, rhs@));
            if T::obeys_sub_spec() {
                r.lemma_same_parts(DualNumber::of(difference(self@, rhs@)));
            }
        }
        r
    }
}

impl<T: Copy + Sub<Output = T>> SubSpecImpl for DualNumber<T> {
    open spec fn obeys_sub_spec() -> bool {
        T::obeys_sub_spec()
    }

    open spec fn sub_req(self, rhs: Self) -> bool {
        difference_defined(self@, rhs@)
    }

    open spec fn sub_spec(self, rhs: Self) -> Self {
        DualNumber::of(difference(self@, rhs@))
    }
}

impl<T: Copy + Add<Output = T> + Mul<Output = T>> Mul for DualNumber<T> {
    type Output = DualNumber<T>;

    /// The product of two dual numbers.
    fn mul(self, rhs: Self) -> (r: Self) {
        let r = DualNumber::mul(self, rhs);
        proof {
            DualNumber::<T>::lemma_of(product(self@, rhs@));
            if T::obeys_mul_spec() && T::obeys_add_spec() {
                r.lemma_same_parts(DualNumber::of(product(self@, rhs@)));
            }
        }
        r
    }
}

impl<T: Copy + Add<Output = T> + Mul<Output = T>> MulSpecImpl for DualNumber<T> {
    open spec fn obeys_mul_spec() -> bool {
        T::obeys_mul_spec() && T::obeys_add_spec()
    }

    open spec fn mul_req(self, rhs: Self) -> bool {
        product_defined(self@, rhs@)
    }

    open spec fn mul_spec(self, rhs: Self) -> Self {
        DualNumber::of(product(self@, rhs@))
    }
}

impl<T: Copy + Sub<Output = T> + Mul<Output = T> + Div<Output = T>> Div for DualNumber<T> {
    type Output = DualNumber<T>;

    /// The quotient of two dual numbers.
    fn div(self, rhs: Self) -> (r: Self) {
        let r = DualNumber::div(self, rhs);
        proof {
            DualNumber::<T>::lemma_of(quotient(self@, rhs@));
            if T::obeys_div_spec() && T::obeys_mul_spec() && T::obeys_sub_spec() {
                r.lemma_same_parts(DualNumber::of(quotient(self@, rhs@)));
            }
        }
        r
    }
}

impl<T: Copy + Sub<Output = T> + Mul<Output = T> + Div<Output = T>> DivSpecImpl for DualNumber<T> {
    open spec fn obeys_div_spec() -> bool {
        T::obeys_div_spec() && T::obeys_mul_spec() && T::obeys_sub_spec()
    }

    open spec fn div_req(self, rhs: Self) -> bool {
        quotient_defined(self@, rhs@)
    }

    open spec fn div_spec(self, rhs: Self) -> Self {
        DualNumber::of(quotient(self@, rhs@))
    }
}

impl<T: Copy + Neg<Output = T>> Neg for DualNumber<T> {
    type Output = DualNumber<T>;

    /// The negation of a dual number.
    fn neg(self) -> (r: Self) {
        let r = DualNumber::neg(self);
        proof {
            DualNumber::<T>::lemma_of(negation(self@));
            if T::obeys_neg_spec() {
                r.lemma_same_parts(DualNumber::of(negation(self@)));
            }
        }
        r
    }
}

impl<T: Copy + Neg<Output = T>> NegSpecImpl for DualNumber<T> {
    open spec fn obeys_neg_spec() -> bool {
        T::obeys_neg_spec()
    }

    open spec fn neg_req(self) -> bool {
        self@.0.neg_req() && self@.1.neg_req()
    }

    open spec fn neg_spec(self) -> Self {
        DualNumber::of(negation(self@))
    }
}

impl<T: Copy + Add<Output = T>> Add<T> for DualNumber<T> {
    type Output = DualNumber<T>;

    /// A dual number and a constant: the dual part stays.
    fn add(self, rhs: T) -> (r: Self) {
        let r = self.add_scalar(rhs);
        proof {
            DualNumber::<T>::lemma_of((self@.0.add_spec(rhs), self@.1));
            if T::obeys_add_spec() {
                r.lemma_same_parts(DualNumber::of((self@.0.add_spec(rhs), self@.1)));
            }
        }
        r
    }
}

impl<T: Copy + Add<Output = T>> AddSpecImpl<T> for DualNumber<T> {
    open spec fn obeys_add_spec() -> bool {
        T::obeys_add_spec()
    }

    open spec fn add_req(self, rhs: T) -> bool {
        self@.0.add_req(rhs)
    }

    open spec fn add_spec(self, rhs: T) -> Self {
        DualNumber::of((self@.0.add_spec(rhs), self@.1))
    }
}

impl<T: Copy + Sub<Output = T>> Sub<T> for DualNumber<T> {
    type Output = DualNumber<T>;

    /// A dual number and a constant: the dual part stays.
    fn sub(self, rhs: T) -> (r: Self) {
        let r = self.sub_scalar(rhs);
        proof {
            DualNumber::<T>::lemma_of((self@.0.sub_spec(rhs), self@.1));
            if T::obeys_sub_spec() {
                r.lemma_same_parts(DualNumber::of((self@.0.sub_spec(rhs), self@.1)));
            }
        }
        r
    }
}

impl<T: Copy + Sub<Output = T>> SubSpecImpl<T> for DualNumber<T> {
    open spec fn obeys_sub_spec() -> bool {
        T::obeys_sub_spec()
    }

    open spec fn sub_req(self, rhs: T) -> bool {
        self@.0.sub_req(rhs)
    }

    open spec fn sub_spec(self, rhs: T) -> Self {
        DualNumber::of((self@.0.sub_spec(rhs), self@.1))
    }
}

} // verus!
