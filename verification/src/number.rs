//! The capability set that a type of terms must offer.

use vstd::prelude::*;

verus! {

/// A numeric type whose values the generator can hold and add.
///
/// Every value stands for an integer, `value()`. A type says through
/// `representable` which integers it can hold; an addition is only asked for
/// where the sum is one of them.
pub trait Number: Sized {
    /// The integer that this value stands for.
    spec fn value(&self) -> int;

    /// Whether the type has a value that stands for `v`.
    spec fn representable(v: int) -> bool;

    /// The additive identity.
    fn zero() -> (r: Self)
        ensures
            r.value() == 0,
    ;

    /// The multiplicative identity.
    fn one() -> (r: Self)
        ensures
            r.value() == 1,
    ;

    /// Whether the type can hold the sum of `self` and `rhs`.
    fn can_add(&self, rhs: &Self) -> (r: bool)
        ensures
            r == Self::representable(self.value() + rhs.value()),
    ;

    /// Adds `rhs` to `self` in place.
    fn add_assign(&mut self, rhs: &Self)
        requires
            Self::representable(old(self).value() + rhs.value()),
        ensures
            final(self).value() == old(self).value() + rhs.value(),
    ;

    /// A second value that stands for the same integer.
    fn duplicate(&self) -> (r: Self)
        ensures
            r.value() == self.value(),
    ;
}

impl Number for usize {
    open spec fn value(&self) -> int {
        *self as int
    }

    open spec fn representable(v: int) -> bool {
        0 <= v <= usize::MAX
    }

    fn zero() -> (r: Self) {
        0
    }

    fn one() -> (r: Self) {
        1
    }

    fn can_add(&self, rhs: &Self) -> (r: bool) {
        *rhs <= Self::MAX - *self
    }

    fn add_assign(&mut self, rhs: &Self) {
        *self = *self + *rhs;
    }

    fn duplicate(&self) -> (r: Self) {
        *self
    }
}

impl Number for u64 {
    open spec fn value(&self) -> int {
        *self as int
    }

    open spec fn representable(v: int) -> bool {
        0 <= v <= u64::MAX
    }

    fn zero() -> (r: Self) {
        0
    }

    fn one() -> (r: Self) {
        1
    }

    fn can_add(&self, rhs: &Self) -> (r: bool) {
        *rhs <= Self::MAX - *self
    }

    fn add_assign(&mut self, rhs: &Self) {
        *self = *self + *rhs;
    }

    fn duplicate(&self) -> (r: Self) {
        *self
    }
}

} // verus!
