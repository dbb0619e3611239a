//! Arbitrary-precision terms: `num::BigUint` as a `Number`.
//!
//! The big integer is opaque to the verifier. What the contracts below say of
//! `num`'s zero, one, addition and clone is taken on trust from that crate.

use num::BigUint;
use num::One;
use num::Zero;
use vstd::prelude::*;

use crate::number::Number;

verus! {

/// `num::BigUint`, carried through verified code as an opaque value.
#[verifier::external_type_specification]
#[verifier::external_body]
pub struct ExBigUint(num::BigUint);

/// The natural number that a `BigUint` holds.
pub uninterp spec fn biguint_value(n: BigUint) -> nat;

/// `<BigUint as num::Zero>::zero`: the big integer that holds 0.
#[verifier::external_body]
fn biguint_zero() -> (r: BigUint)
    ensures
        biguint_value(r) == 0,
{
    <BigUint as Zero>::zero()
}

/// `<BigUint as num::One>::one`: the big integer that holds 1.
#[verifier::external_body]
fn biguint_one() -> (r: BigUint)
    ensures
        biguint_value(r) == 1,
{
    <BigUint as One>::one()
}

/// `<BigUint as AddAssign<&BigUint>>::add_assign`: afterwards `lhs` holds the
/// sum of what it held before and what `rhs` holds. The sum is exact: a big
/// integer grows as needed and never overflows.
#[verifier::external_body]
fn biguint_add_assign(lhs: &mut BigUint, rhs: &BigUint)
    ensures
        biguint_value(*final(lhs)) == biguint_value(*old(lhs)) + biguint_value(*rhs),
{
    *lhs += rhs;
}

/// `<BigUint as Clone>::clone`: a copy that holds the same number.
#[verifier::external_body]
fn biguint_clone(n: &BigUint) -> (r: BigUint)
    ensures
        biguint_value(r) == biguint_value(*n),
{
    n.clone()
}

impl Number for BigUint {
    open spec fn value(&self) -> int {
        biguint_value(*self) as int
    }

    /// A big integer can hold every natural number.
    open spec fn representable(v: int) -> bool {
        0 <= v
    }

    fn zero() -> (r: Self) {
        biguint_zero()
    }

    fn one() -> (r: Self) {
        biguint_one()
    }

    fn can_add(&self, rhs: &Self) -> (r: bool) {
        true
    }

    fn add_assign(&mut self, rhs: &Self) {
        biguint_add_assign(self, rhs);
    }

    fn duplicate(&self) -> (r: Self) {
        biguint_clone(self)
    }
}

} // verus!
