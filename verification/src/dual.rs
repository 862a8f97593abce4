//! The dual number itself: construction, access to its parts, and the entry
//! point that differentiates a function at a point.

use vstd::prelude::*;
use core::ops::Neg;
use vstd::std_specs::ops::NegSpec;
use num_traits::{One, Zero};
use crate::calls::{ask_one, ask_zero, one_gives, zero_gives};
use crate::scalar::neg_of;

verus! {

/// A pair of a value and a first derivative.
///
/// Comparisons look at the real part only, and `min` and `max` hand back the
/// chosen operand with its own dual part.
#[derive(Debug, Clone, Copy)]
pub struct DualNumber<T>(T, T);

impl<T> View for DualNumber<T> {
    type V = (T, T);

    /// The pair `(real, dual)`.
    closed spec fn view(&self) -> (T, T) {
        (self.0, self.1)
    }
}

impl<T> DualNumber<T> {
    /// The dual number with the given parts.
    pub fn new(re: T, du: T) -> (r: DualNumber<T>)
        ensures
            r@ == (re, du),
    {
        DualNumber(re, du)
    }

    /// The constant `re`: its dual part is the scalar type's zero.
    pub fn from_real(re: T) -> (r: DualNumber<T>) where T: Zero
        ensures
            r@.0 == re,
            zero_gives(r@.1),
    {
        DualNumber::new(re, ask_zero())
    }

    /// Both parts, real first.
    pub fn into_tuple(self) -> (r: (T, T))
        ensures
            r == self@,
    {
        (self.0, self.1)
    }

    /// The real part, borrowed.
    pub fn real_ref(&self) -> (r: &T)
        ensures
            *r == self@.0,
    {
        &self.0
    }

    /// The dual part, borrowed.
    pub fn dual_ref(&self) -> (r: &T)
        ensures
            *r == self@.1,
    {
        &self.1
    }

    /// The real part, borrowed for writing; the dual part stays.
    pub fn real_mut(&mut self) -> (r: &mut T)
        ensures
            *r == old(self)@.0,
            final(self)@ == (*final(r), old(self)@.1),
    {
        &mut self.0
    }

    /// The dual part, borrowed for writing; the real part stays.
    pub fn dual_mut(&mut self) -> (r: &mut T)
        ensures
            *r == old(self)@.1,
            final(self)@ == (old(self)@.0, *final(r)),
    {
        &mut self.1
    }

    /// Applies `mapper` to the whole value.
    pub fn map<F>(self, mapper: F) -> (r: Self) where F: Fn(DualNumber<T>) -> DualNumber<T>
        requires
            mapper.requires((self,)),
        ensures
            mapper.ensures((self,), r),
    {
        mapper(self)
    }

    /// Applies `mapper` to the two parts, real first.
    pub fn map_parts<F>(self, mapper: F) -> (r: Self) where F: Fn(T, T) -> DualNumber<T>
        requires
            mapper.requires((self@.0, self@.1)),
        ensures
            mapper.ensures((self@.0, self@.1), r),
    {
        mapper(self.0, self.1)
    }
}

impl<T> DualNumber<T> {
    /// The dual number with the parts of `parts`.
    pub closed spec fn of(parts: (T, T)) -> Self {
        DualNumber(parts.0, parts.1)
    }

    /// `of` makes the dual number whose view is the pair it was given.
    pub proof fn lemma_of(parts: (T, T))
        ensures
            Self::of(parts)@ == parts,
    {
    }

    /// A dual number is its pair: two with the same parts are the same.
    pub proof fn lemma_same_parts(self, other: Self)
        requires
            self@ == other@,
        ensures
            self == other,
    {
    }
}

impl<T: Copy> DualNumber<T> {
    /// The real part.
    pub fn real_part(&self) -> (r: T)
        ensures
            r == self@.0,
    {
        self.0
    }

    /// The dual part.
    pub fn dual(&self) -> (r: T)
        ensures
            r == self@.1,
    {
        self.1
    }
}

impl<T: Copy + Neg<Output = T>> DualNumber<T> {
    /// The conjugate: the same real part, the dual part negated.
    pub fn conjugate(self) -> (r: Self)
        requires
            self@.1.neg_req(),
        ensures
            r@.0 == self@.0,
            neg_of(self@.1, r@.1),
    {
        DualNumber(self.0, self.1.neg())
    }
}

/// The derivative of `f` at `x`, where `f` is written with dual-number
/// operations and `one` is the derivative of the variable itself.
pub fn differentiate_seeded<T: Copy, F>(x: T, one: T, f: F) -> (r: T) where
    F: Fn(DualNumber<T>) -> DualNumber<T>,

    requires
        forall|seed: DualNumber<T>| seed@ == (x, one) ==> f.requires((seed,)),
    ensures
        exists|seed: DualNumber<T>, out: DualNumber<T>|
            seed@ == (x, one) && f.ensures((seed,), out) && r == out@.1,
{
    let seed = DualNumber::new(x, one);
    let out = f(seed);
    out.dual()
}

/// The derivative of `f` at `x`: `f` is applied to the seed, whose real part
/// is `x` and whose dual part is the scalar type's one, and the dual part of
/// what it returns is the derivative.
pub fn differentiate<T: One + Copy, F>(x: T, f: F) -> (r: T) where
    F: Fn(DualNumber<T>) -> DualNumber<T>,

    requires
        forall|seed: DualNumber<T>|
            seed@.0 == x && #[trigger] one_gives(seed@.1) ==> f.requires((seed,)),
    ensures
        exists|seed: DualNumber<T>, out: DualNumber<T>|
            seed@.0 == x && one_gives(seed@.1) && #[trigger] f.ensures((seed,), out) && r
                == out@.1,
{
    let one: T = ask_one();
    let seed = DualNumber::new(x, one);
    let out = f(seed);
    out.dual()
}

} // verus!
