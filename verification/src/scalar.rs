//! What the kernel asks of its scalar type.
//!
//! The scalar's operators are those of `core::ops`. An operator need not be
//! a function of its operands (floating point leaves this open), so the
//! relations here speak of the values that an operation may give.

use vstd::prelude::*;
use core::ops::{Add, Div, Mul, Neg, Sub};
use vstd::std_specs::ops::{AddSpec, DivSpec, MulSpec, NegSpec, SubSpec};

verus! {

/// A scalar with the four operations and a sign: what the derivative rules
/// of the elementary functions compute with.
pub trait Field: Copy + Add<Output = Self> + Sub<Output = Self> + Mul<Output = Self> + Div<
    Output = Self,
> + Neg<Output = Self> {

}

impl<
    T: Copy + Add<Output = T> + Sub<Output = T> + Mul<Output = T> + Div<Output = T> + Neg<
        Output = T,
    >,
> Field for T {

}

/// `r` may come out of `a + b`.
pub open spec fn sum_of<T: Add<Output = T>>(a: T, b: T, r: T) -> bool {
    call_ensures(T::add, (a, b), r)
}

/// `r` may come out of `a - b`.
pub open spec fn diff_of<T: Sub<Output = T>>(a: T, b: T, r: T) -> bool {
    call_ensures(T::sub, (a, b), r)
}

/// `r` may come out of `a * b`.
pub open spec fn prod_of<T: Mul<Output = T>>(a: T, b: T, r: T) -> bool {
    call_ensures(T::mul, (a, b), r)
}

/// `r` may come out of `a / b`.
pub open spec fn quot_of<T: Div<Output = T>>(a: T, b: T, r: T) -> bool {
    call_ensures(T::div, (a, b), r)
}

/// `r` may come out of `-a`.
pub open spec fn neg_of<T: Neg<Output = T>>(a: T, r: T) -> bool {
    call_ensures(T::neg, (a,), r)
}

} // verus!
