//! Dual numbers for forward-mode automatic differentiation.
//!
//! A dual number carries the value of a function together with its first
//! derivative. Every operation on dual numbers combines the derivative
//! parts of its operands by the rule of calculus that belongs to it, so a
//! function written with these operations yields its own derivative.

pub mod scalar;
pub mod calls;
pub mod dual;
pub mod ring;
pub mod ops;
pub mod order;
pub mod rules;
pub mod elementary;
pub mod cast;
pub mod text;
pub mod laws;

pub use dual::{differentiate, differentiate_seeded, DualNumber};
pub use ring::DualError;
pub use scalar::Field;
