//! Equality and order of dual numbers. Both go by the real parts alone: the
//! dual parts are never read. `min` and `max` choose one operand and return
//! it as it is.

use vstd::prelude::*;
use core::cmp::Ordering;
use vstd::std_specs::cmp::{PartialEqSpec, PartialEqSpecImpl, PartialOrdSpec, PartialOrdSpecImpl};
use crate::dual::DualNumber;

verus! {

/// `a < b` as the scalar type orders them.
pub open spec fn less<T: PartialOrd>(a: T, b: T) -> bool {
    a.partial_cmp_spec(&b) == Some(Ordering::Less)
}

/// `a > b` as the scalar type orders them.
pub open spec fn greater<T: PartialOrd>(a: T, b: T) -> bool {
    a.partial_cmp_spec(&b) == Some(Ordering::Greater)
}

impl<T: PartialEq> PartialEq for DualNumber<T> {
    /// Whether the real parts are equal: what the scalar type's `==` gave on
    /// them.
    fn eq(&self, rhs: &Self) -> (r: bool)
        ensures
            call_ensures(T::eq, (&self@.0, &rhs@.0), r),
    {
        self.real_ref().eq(rhs.real_ref())
    }
}

impl<T: PartialEq> PartialEqSpecImpl for DualNumber<T> {
    open spec fn obeys_eq_spec() -> bool {
        T::obeys_eq_spec()
    }

    open spec fn eq_spec(&self, rhs: &Self) -> bool {
        self@.0.eq_spec(&rhs@.0)
    }
}

impl<T: PartialOrd> PartialOrd for DualNumber<T> {
    /// The order of the real parts: what the scalar type's comparison gave
    /// on them.
    fn partial_cmp(&self, rhs: &Self) -> (r: Option<Ordering>)
        ensures
            call_ensures(T::partial_cmp, (&self@.0, &rhs@.0), r),
    {
        self.real_ref().partial_cmp(rhs.real_ref())
    }

    fn lt(&self, rhs: &Self) -> (r: bool)
        ensures
            call_ensures(T::lt, (&self@.0, &rhs@.0), r),
    {
        self.real_ref().lt(rhs.real_ref())
    }

    fn le(&self, rhs: &Self) -> (r: bool)
        ensures
            call_ensures(T::le, (&self@.0, &rhs@.0), r),
    {
        self.real_ref().le(rhs.real_ref())
    }

    fn gt(&self, rhs: &Self) -> (r: bool)
        ensures
            call_ensures(T::gt, (&self@.0, &rhs@.0), r),
    {
        self.real_ref().gt(rhs.real_ref())
    }

    fn ge(&self, rhs: &Self) -> (r: bool)
        ensures
            call_ensures(T::ge, (&self@.0, &rhs@.0), r),
    {
        self.real_ref().ge(rhs.real_ref())
    }
}

impl<T: PartialOrd> PartialOrdSpecImpl for DualNumber<T> {
    open spec fn obeys_partial_cmp_spec() -> bool {
        T::obeys_partial_cmp_spec()
    }

    open spec fn partial_cmp_spec(&self, rhs: &Self) -> Option<Ordering> {
        self@.0.partial_cmp_spec(&rhs@.0)
    }
}

impl<T: PartialEq> PartialEq<T> for DualNumber<T> {
    /// Whether the real part equals the scalar: what the scalar type's `==`
    /// gave on them.
    fn eq(&self, rhs: &T) -> (r: bool)
        ensures
            call_ensures(T::eq, (&self@.0, rhs), r),
    {
        self.real_ref().eq(rhs)
    }
}

impl<T: PartialEq> PartialEqSpecImpl<T> for DualNumber<T> {
    open spec fn obeys_eq_spec() -> bool {
        T::obeys_eq_spec()
    }

    open spec fn eq_spec(&self, rhs: &T) -> bool {
        self@.0.eq_spec(rhs)
    }
}

impl<T: PartialOrd> PartialOrd<T> for DualNumber<T> {
    /// The order of the real part and the scalar: what the scalar type's
    /// comparison gave on them.
    fn partial_cmp(&self, rhs: &T) -> (r: Option<Ordering>)
        ensures
            call_ensures(T::partial_cmp, (&self@.0, rhs), r),
    {
        self.real_ref().partial_cmp(rhs)
    }

    fn lt(&self, rhs: &T) -> (r: bool)
        ensures
            call_ensures(T::lt, (&self@.0, rhs), r),
    {
        self.real_ref().lt(rhs)
    }

    fn le(&self, rhs: &T) -> (r: bool)
        ensures
            call_ensures(T::le, (&self@.0, rhs), r),
    {
        self.real_ref().le(rhs)
    }

    fn gt(&self, rhs: &T) -> (r: bool)
        ensures
            call_ensures(T::gt, (&self@.0, rhs), r),
    {
        self.real_ref().gt(rhs)
    }

    fn ge(&self, rhs: &T) -> (r: bool)
        ensures
            call_ensures(T::ge, (&self@.0, rhs), r),
    {
        self.real_ref().ge(rhs)
    }
}

impl<T: PartialOrd> PartialOrdSpecImpl<T> for DualNumber<T> {
    open spec fn obeys_partial_cmp_spec() -> bool {
        T::obeys_partial_cmp_spec()
    }

    open spec fn partial_cmp_spec(&self, rhs: &T) -> Option<Ordering> {
        self@.0.partial_cmp_spec(rhs)
    }
}

impl<T: Copy + PartialOrd> DualNumber<T> {
    /// The operand with the larger real part, as it is: `self` where its
    /// real part is greater, else `other`.
    pub fn max(self, other: Self) -> (r: Self)
        ensures
            r == self || r == other,
            exists|first: bool| #[trigger]
                call_ensures(T::gt, (&self@.0, &other@.0), first) && r == if first {
                    self
                } else {
                    other
                },
            T::obeys_partial_cmp_spec() ==> r == if greater(self@.0, other@.0) {
                self
            } else {
                other
            },
    {
        if self.real_ref().gt(other.real_ref()) {
            self
        } else {
            other
        }
    }

    /// The operand with the smaller real part, as it is: `self` where its
    /// real part is less, else `other`.
    pub fn min(self, other: Self) -> (r: Self)
        ensures
            r == self || r == other,
            exists|first: bool| #[trigger]
                call_ensures(T::lt, (&self@.0, &other@.0), first) && r == if first {
                    self
                } else {
                    other
                },
            T::obeys_partial_cmp_spec() ==> r == if less(self@.0, other@.0) {
                self
            } else {
                other
            },
    {
        if self.real_ref().lt(other.real_ref()) {
            self
        } else {
            other
        }
    }
}

} // verus!
