//! Valuing positions against oracle prices.
use vstd::prelude::*;

use crate::error::ErrorCode;
use crate::ledger::lemma_product_fits;

verus! {

/// Value of `amount` tokens at `price`.
pub fn collateral_value(amount: u64, price: u64) -> (r: Result<u64, ErrorCode>)
    ensures
        amount * price <= u64::MAX ==> r == Ok::<u64, ErrorCode>((amount * price) as u64),
        amount * price > u64::MAX ==> r == Err::<u64, ErrorCode>(ErrorCode::Overflow),
{
    proof {
        lemma_product_fits(amount, price);
    }
    let v: u128 = (amount as u128) * (price as u128);
    if v > u64::MAX as u128 {
        Err(ErrorCode::Overflow)
    } else {
        Ok(v as u64)
    }
}

/// The most a position may borrow against collateral worth `value`: the
/// value scaled by the collateral bank's liquidation threshold.
pub fn borrowable_amount(value: u64, liquidation_threshold: u64) -> (r: Result<u64, ErrorCode>)
    ensures
        value * liquidation_threshold <= u64::MAX ==> r == Ok::<u64, ErrorCode>(
            (value * liquidation_threshold) as u64,
        ),
        value * liquidation_threshold > u64::MAX ==> r == Err::<u64, ErrorCode>(ErrorCode::Overflow),
{
    collateral_value(value, liquidation_threshold)
}

/// The health factor `collateral_value * liquidation_threshold / borrowed_value`
/// is below one. A position without debt is never unhealthy.
pub open spec fn unhealthy(collateral_value: int, liquidation_threshold: int, borrowed_value: int) -> bool {
    collateral_value * liquidation_threshold < borrowed_value
}

/// Whether the health factor of a position is below one, compared exactly.
pub fn is_unhealthy(collateral_value: u64, liquidation_threshold: u64, borrowed_value: u64) -> (r: bool)
    ensures
        r == unhealthy(collateral_value as int, liquidation_threshold as int, borrowed_value as int),
{
    proof {
        lemma_product_fits(collateral_value, liquidation_threshold);
    }
    (collateral_value as u128) * (liquidation_threshold as u128) < borrowed_value as u128
}

} // verus!
