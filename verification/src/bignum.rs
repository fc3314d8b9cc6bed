//! Arbitrary-precision integers for the partition values, supplied by the
//! `num_bigint` crate. `BigInt` is opaque here; `big_int_of` names the
//! mathematical integer a value holds, and the thin wrappers below relate
//! each operation to it.

use vstd::prelude::*;

verus! {

#[verifier::external_type_specification]
#[verifier::external_body]
pub struct ExBigInt(num_bigint::BigInt);

/// The mathematical integer that a `BigInt` holds.
pub uninterp spec fn big_int_of(b: num_bigint::BigInt) -> int;

/// Relies on `<num_bigint::BigInt as From<u64>>::from`: the result holds
/// exactly the given value.
#[verifier::external_body]
pub(crate) fn big_from_u64(x: u64) -> (r: num_bigint::BigInt)
    ensures
        big_int_of(r) == x,
{
    num_bigint::BigInt::from(x)
}

/// Relies on `Add<&num_bigint::BigInt> for &num_bigint::BigInt`: exact
/// integer addition.
#[verifier::external_body]
pub(crate) fn big_add(a: &num_bigint::BigInt, b: &num_bigint::BigInt) -> (r: num_bigint::BigInt)
    ensures
        big_int_of(r) == big_int_of(*a) + big_int_of(*b),
{
    a + b
}

/// Relies on `Sub<&num_bigint::BigInt> for &num_bigint::BigInt`: exact
/// integer subtraction.
#[verifier::external_body]
pub(crate) fn big_sub(a: &num_bigint::BigInt, b: &num_bigint::BigInt) -> (r: num_bigint::BigInt)
    ensures
        big_int_of(r) == big_int_of(*a) - big_int_of(*b),
{
    a - b
}

/// Relies on `Clone for num_bigint::BigInt`: the copy holds the same
/// integer as the original.
#[verifier::external_body]
pub(crate) fn big_clone(a: &num_bigint::BigInt) -> (r: num_bigint::BigInt)
    ensures
        big_int_of(r) == big_int_of(*a),
{
    a.clone()
}

} // verus!
