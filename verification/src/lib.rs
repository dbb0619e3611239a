//! A lazy generator for additive recurrences: two seed values followed by
//! terms that are each the sum of the two before. The generator is generic
//! over the numeric type of its terms, so that machine integers and
//! arbitrary-precision integers share one implementation.

pub mod bignum;
pub mod fib;
pub mod number;
pub mod sequence;

pub use fib::Fib;
pub use number::Number;
