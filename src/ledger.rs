//! Conversion between token amounts and pool shares.
use vstd::prelude::*;

use crate::error::ErrorCode;

verus! {

/// Shares that `amount` tokens buy in a pool holding `total` tokens against
/// `total_shares` shares. An empty pool mints one share per token.
pub open spec fn shares_for(amount: int, total: int, total_shares: int) -> int {
    if total == 0 {
        amount
    } else {
        amount * total_shares / total
    }
}

/// Tokens that `shares` shares are worth in a pool holding `total` tokens
/// against `total_shares` shares.
pub open spec fn amount_for(shares: int, total: int, total_shares: int) -> int {
    if total_shares == 0 {
        0
    } else {
        shares * total / total_shares
    }
}

/// The product of two 64-bit values fits in 128 bits.
pub proof fn lemma_product_fits(a: u64, b: u64)
    ensures
        0 <= (a as int) * (b as int) <= u128::MAX,
{
    assert(0 <= (a as int) * (b as int) <= (u64::MAX as int) * (u64::MAX as int)) by (nonlinear_arith);
}

/// Converts a token amount into pool shares at the pool's exchange rate,
/// rounding down. The first contribution to an empty pool is taken 1:1.
pub fn amount_to_shares(amount: u64, total: u64, total_shares: u64) -> (r: Result<u64, ErrorCode>)
    ensures
        shares_for(amount as int, total as int, total_shares as int) <= u64::MAX ==> r == Ok::<
            u64,
            ErrorCode,
        >(shares_for(amount as int, total as int, total_shares as int) as u64),
        shares_for(amount as int, total as int, total_shares as int) > u64::MAX ==> r == Err::<
            u64,
            ErrorCode,
        >(ErrorCode::Overflow),
{
    if total == 0 {
        return Ok(amount);
    }
    proof {
        lemma_product_fits(amount, total_shares);
    }
    let product: u128 = (amount as u128) * (total_shares as u128);
    let shares: u128 = product / (total as u128);
    if shares > u64::MAX as u128 {
        Err(ErrorCode::Overflow)
    } else {
        Ok(shares as u64)
    }
}

/// Converts pool shares back into tokens at the pool's exchange rate,
/// rounding down.
pub fn shares_to_amount(shares: u64, total: u64, total_shares: u64) -> (r: Result<u64, ErrorCode>)
    ensures
        total_shares == 0 && shares != 0 ==> r == Err::<u64, ErrorCode>(ErrorCode::DivisionByZero),
        !(total_shares == 0 && shares != 0) && amount_for(shares as int, total as int, total_shares as int)
            <= u64::MAX ==> r == Ok::<u64, ErrorCode>(
            amount_for(shares as int, total as int, total_shares as int) as u64,
        ),
        !(total_shares == 0 && shares != 0) && amount_for(shares as int, total as int, total_shares as int)
            > u64::MAX ==> r == Err::<u64, ErrorCode>(ErrorCode::Overflow),
{
    if total_shares == 0 {
        if shares != 0 {
            return Err(ErrorCode::DivisionByZero);
        }
        return Ok(0);
    }
    proof {
        lemma_product_fits(shares, total);
    }
    let product: u128 = (shares as u128) * (total as u128);
    let amount: u128 = product / (total_shares as u128);
    if amount > u64::MAX as u128 {
        Err(ErrorCode::Overflow)
    } else {
        Ok(amount as u64)
    }
}

} // verus!

verus! {

/// Shares minted for a contribution of `amount` to one side of a pool, or the
/// fault that stops it. `held` and `held_shares` are the contributor's stake,
/// which grows by the same amounts as the pool.
pub open spec fn mint_outcome(amount: u64, total: u64, total_shares: u64, held: u64, held_shares: u64) -> Result<u64, ErrorCode> {
    let minted = shares_for(amount as int, total as int, total_shares as int);
    if minted > u64::MAX || total + amount > u64::MAX || total_shares + minted > u64::MAX
        || held + amount > u64::MAX || held_shares + minted > u64::MAX {
        Err(ErrorCode::Overflow)
    } else {
        Ok(minted as u64)
    }
}

pub open spec fn min_int(a: int, b: int) -> int {
    if a <= b { a } else { b }
}

/// Shares burned when `amount` tokens leave one side of a pool on behalf of
/// a holder whose stake is worth `held_value` tokens and backed by
/// `held_shares` shares, or the fault that stops it. The burn is the
/// rate-based share count, clamped to the stake. No side is left holding
/// tokens without shares or shares without tokens.
pub open spec fn settle_outcome(amount: u64, total: u64, total_shares: u64, held_value: u64, held_shares: u64) -> Result<u64, ErrorCode> {
    let quoted = shares_for(amount as int, total as int, total_shares as int);
    let burned = min_int(quoted, held_shares as int);
    if held_value < amount {
        Err(ErrorCode::Underflow)
    } else if quoted > u64::MAX {
        Err(ErrorCode::Overflow)
    } else if total < amount || total_shares < burned || ((total - amount == 0) != (total_shares
        - burned == 0)) {
        Err(ErrorCode::Underflow)
    } else {
        Ok(burned as u64)
    }
}

/// Shares burned when a holder of `held_shares` shares takes `amount` tokens
/// out of one side of a pool, or the fault that stops it. `shortfall` is the
/// error for a stake whose shares are worth less than `amount`; `held_value`
/// is the holder's recorded amount, which must cover `amount` too.
pub open spec fn redeem_outcome(
    amount: u64,
    total: u64,
    total_shares: u64,
    held_value: u64,
    held_shares: u64,
    shortfall: ErrorCode,
) -> Result<u64, ErrorCode> {
    let value = amount_for(held_shares as int, total as int, total_shares as int);
    if total_shares == 0 && held_shares != 0 {
        Err(ErrorCode::DivisionByZero)
    } else if value > u64::MAX {
        Err(ErrorCode::Overflow)
    } else if value < amount {
        Err(shortfall)
    } else {
        settle_outcome(amount, total, total_shares, held_value, held_shares)
    }
}

/// Computes the shares to mint for a contribution; see `mint_outcome`.
pub fn mint(amount: u64, total: u64, total_shares: u64, held: u64, held_shares: u64) -> (r: Result<u64, ErrorCode>)
    ensures
        r == mint_outcome(amount, total, total_shares, held, held_shares),
{
    let minted = match amount_to_shares(amount, total, total_shares) {
        Ok(m) => m,
        Err(e) => return Err(e),
    };
    if total > u64::MAX - amount || total_shares > u64::MAX - minted || held > u64::MAX - amount
        || held_shares > u64::MAX - minted {
        return Err(ErrorCode::Overflow);
    }
    Ok(minted)
}

/// Computes the burn of a withdrawal from one side of a pool; see `settle_outcome`.
pub fn settle(amount: u64, total: u64, total_shares: u64, held_value: u64, held_shares: u64) -> (r:
    Result<u64, ErrorCode>)
    ensures
        r == settle_outcome(amount, total, total_shares, held_value, held_shares),
{
    if held_value < amount {
        return Err(ErrorCode::Underflow);
    }
    let quoted = match amount_to_shares(amount, total, total_shares) {
        Ok(q) => q,
        Err(e) => return Err(e),
    };
    let burned = if quoted <= held_shares { quoted } else { held_shares };
    if total < amount || total_shares < burned || ((total - amount == 0) != (total_shares - burned
        == 0)) {
        return Err(ErrorCode::Underflow);
    }
    Ok(burned)
}

/// Computes a redemption; see `redeem_outcome`.
pub fn redeem(
    amount: u64,
    total: u64,
    total_shares: u64,
    held_value: u64,
    held_shares: u64,
    shortfall: ErrorCode,
) -> (r: Result<u64, ErrorCode>)
    ensures
        r == redeem_outcome(amount, total, total_shares, held_value, held_shares, shortfall),
{
    let value = match shares_to_amount(held_shares, total, total_shares) {
        Ok(v) => v,
        Err(e) => return Err(e),
    };
    if value < amount {
        return Err(shortfall);
    }
    settle(amount, total, total_shares, held_value, held_shares)
}

} // verus!

verus! {

/// A holder's stake, worth `held_value` and backed by `held_shares`, is part
/// of a pool side holding `total` tokens against `total_shares` shares: it is
/// no bigger than the side, and a stake worth the whole side holds all of its
/// shares.
pub open spec fn stake_backed(total: u64, total_shares: u64, held_value: u64, held_shares: u64) -> bool {
    &&& held_shares <= total_shares
    &&& held_value <= total
    &&& (held_value == total ==> held_shares == total_shares)
}

proof fn lemma_quote_bounds(amount: int, total: int, total_shares: int)
    requires
        0 <= amount <= total,
        0 < total,
        0 <= total_shares,
    ensures
        amount * total_shares / total <= total_shares,
        amount < total && total_shares > 0 ==> amount * total_shares / total < total_shares,
{
    let x = amount * total_shares;
    vstd::arithmetic::div_mod::lemma_fundamental_div_mod(x, total);
    vstd::arithmetic::div_mod::lemma_mod_pos_bound(x, total);
    let q = x / total;
    assert(x <= total * total_shares) by (nonlinear_arith)
        requires
            0 <= amount <= total,
            0 <= total_shares,
            x == amount * total_shares,
    ;
    if q > total_shares {
        assert(total * q >= total * total_shares + total) by (nonlinear_arith)
            requires
                q >= total_shares + 1,
                total > 0,
        ;
        assert(false);
    }
    if amount < total && total_shares > 0 {
        assert(x < total * total_shares) by (nonlinear_arith)
            requires
                0 <= amount < total,
                total_shares > 0,
                x == amount * total_shares,
        ;
        if q >= total_shares {
            assert(total * q >= total * total_shares) by (nonlinear_arith)
                requires
                    q >= total_shares,
                    total > 0,
            ;
            assert(false);
        }
    }
}

/// Taking out no more than a stake is worth always settles when the stake is
/// part of a consistent pool side.
pub proof fn lemma_settle_succeeds(amount: u64, total: u64, total_shares: u64, held_value: u64, held_shares: u64)
    requires
        amount <= held_value,
        stake_backed(total, total_shares, held_value, held_shares),
        total_shares == 0 <==> total == 0,
    ensures
        settle_outcome(amount, total, total_shares, held_value, held_shares) is Ok,
{
    if total > 0 {
        lemma_quote_bounds(amount as int, total as int, total_shares as int);
        let quoted = shares_for(amount as int, total as int, total_shares as int);
        let burned = min_int(quoted, held_shares as int);
        assert(quoted <= total_shares);
        if amount == total {
            assert(held_value == total);
            assert(held_shares == total_shares);
            assert(quoted == total_shares) by (nonlinear_arith)
                requires
                    quoted == (amount as int) * (total_shares as int) / (total as int),
                    amount == total,
                    total > 0,
            ;
        } else {
            assert(burned < total_shares);
        }
    }
}

} // verus!
