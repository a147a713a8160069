//! Amounts of a denomination, as the bank module carries them, and the
//! proportional split of an amount that `Uint128::multiply_ratio` computes.

use vstd::prelude::*;
use cosmwasm_std::Uint128;

verus! {

/// An amount of one denomination.
#[derive(Debug, Clone)]
pub struct Coin {
    pub denom: String,
    pub amount: u128,
}

impl Coin {
    /// A copy with the same denomination and amount.
    pub fn copy_of(&self) -> (r: Coin)
        ensures
            r == *self,
    {
        Coin { denom: self.denom.clone(), amount: self.amount }
    }
}

/// `Uint128::multiply_ratio`: `x * numerator / denominator`, computed
/// through a 256-bit product and floored. It panics on a zero denominator
/// and when the quotient leaves 128 bits; `requires` leaves both out.
#[verifier::external_body]
pub(crate) fn multiply_ratio(x: u128, numerator: u128, denominator: u128) -> (r: u128)
    requires
        denominator != 0,
        (x * numerator) / (denominator as int) <= u128::MAX,
    ensures
        r == (x * numerator) / (denominator as int),
{
    Uint128::new(x).multiply_ratio(numerator, denominator).u128()
}

} // verus!
