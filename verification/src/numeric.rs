//! The arithmetic that the pallets take from the `num` crate, with what is
//! assumed of each operation.

use vstd::prelude::*;

verus! {

/// `num::traits::CheckedSub::checked_sub` at `u128`: the difference, or `None`
/// where it would fall below zero. Assumed, not proved.
#[verifier::external_body]
pub(crate) fn checked_sub(a: u128, b: u128) -> (r: Option<u128>)
    ensures
        r == (if a >= b { Some((a - b) as u128) } else { None }),
{
    num::traits::CheckedSub::checked_sub(&a, &b)
}

/// `num::traits::CheckedAdd::checked_add` at `u128`: the sum, or `None` where
/// it would exceed `u128::MAX`. Assumed, not proved.
#[verifier::external_body]
pub(crate) fn checked_add(a: u128, b: u128) -> (r: Option<u128>)
    ensures
        r == (if a + b <= u128::MAX { Some((a + b) as u128) } else { None }),
{
    num::traits::CheckedAdd::checked_add(&a, &b)
}

/// `num::traits::Zero::zero` at `u128`: the number 0. Assumed, not proved.
#[verifier::external_body]
pub(crate) fn zero_u128() -> (r: u128)
    ensures
        r == 0,
{
    num::traits::Zero::zero()
}

/// `num::traits::Zero::zero` at `u32`: the number 0. Assumed, not proved.
#[verifier::external_body]
pub(crate) fn zero_u32() -> (r: u32)
    ensures
        r == 0,
{
    num::traits::Zero::zero()
}

/// `num::traits::One::one` at `u32`: the number 1. Assumed, not proved.
#[verifier::external_body]
pub(crate) fn one_u32() -> (r: u32)
    ensures
        r == 1,
{
    num::traits::One::one()
}

} // verus!
