//! A lazy, stateful enumerator of the positive rational numbers.
//!
//! The enumerator owns a single fraction and, on demand, replaces it by its
//! successor under the Gibbons–Lester–Bird recurrence: for the current value
//! `r` with integer part `n` and fractional part `y`, the next value is
//! `1 / (n + 1 - y)`.  Starting from `1/1`, this walk visits every positive
//! rational exactly once, always in lowest terms, using nothing but integer
//! addition, subtraction and remainder.
//!
//! The modules prove that the walk keeps its fractions positive and coprime,
//! that no value is ever repeated, and that the walk is deterministic.

pub mod arith;
pub mod model;
pub mod number;
pub mod rationals;

pub use arith::Arith;
pub use rationals::Rational;
pub use rationals::Rationals;
