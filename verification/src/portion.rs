use vstd::prelude::*;

verus! {

/// The fixed-point denominator of a decimal fraction: one unit is 10^18 atomics.
pub const DECIMAL_FRACTIONAL: u128 = 1_000_000_000_000_000_000u128;

/// The payout owed to a member holding `atomics / 10^18` of the fee `amount`:
/// the product floor-divided by the fixed denominator. Truncation dust stays
/// with the contract.
pub open spec fn spec_portion_amount(amount: int, atomics: int) -> int {
    amount * atomics / (DECIMAL_FRACTIONAL as int)
}

/// Relies on cosmwasm_std's `Uint128 * Decimal`: `Decimal::raw(atomics)` has
/// numerator `atomics` over 10^18, and the product is computed in 256 bits and
/// floor-divided by that denominator (`Uint128::multiply_ratio`). The call
/// panics when the quotient exceeds `u128::MAX`, so such inputs are excluded.
#[verifier::external_body]
pub(crate) fn mul_portion(amount: u128, atomics: u128) -> (r: u128)
    requires
        spec_portion_amount(amount as int, atomics as int) <= u128::MAX,
    ensures
        r == spec_portion_amount(amount as int, atomics as int),
{
    (cosmwasm_std::Uint128::new(amount) * cosmwasm_std::Decimal::raw(atomics)).u128()
}

} // verus!
