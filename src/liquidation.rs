//! Liquidation of an unhealthy position, reconciled into the position and
//! both pools. Both pools are first brought forward to `now`; then the repaid
//! debt leaves the borrowed bank's borrow side and the target's debt, and the
//! seized collateral leaves the collateral bank's deposit side and the
//! target's deposit, shares included.
//!
//! Amounts are token counts of the asset that moves. The liquidation amount
//! is the close factor's fraction of the outstanding debt, in tokens of the
//! borrowed asset (never more than the debt). The liquidator receives the
//! value of that repayment plus the bonus, converted into collateral tokens
//! at the collateral price and capped at the target's whole collateral. A
//! debt *value* times the close factor, taken literally, would be a value
//! moved as a token count, which only agrees with this when the borrowed
//! asset's price is 1.
use vstd::prelude::*;

use crate::error::ErrorCode;
use crate::health::{collateral_value, is_unhealthy, unhealthy};
use crate::interest::{borrows_accrued, check_stake_accrual, deposits_accrued, stake_accrual};
use crate::ledger::{lemma_product_fits, lemma_settle_succeeds, min_int, settle, settle_outcome, stake_backed};
use crate::state::{Bank, Holding, Prices, TokenType, User, BPS};

verus! {

/// What a liquidation moves: `repaid` tokens of the borrowed asset from the
/// liquidator to the borrowed bank, `seized` tokens of the collateral asset
/// from the collateral bank to the liquidator.
#[derive(Clone, Copy, Debug, PartialEq, Eq, Structural)]
pub struct Liquidation {
    pub repaid: u64,
    pub seized: u64,
}

/// The tokens of a debt of `debt` tokens that one liquidation repays: the
/// close factor's fraction of it, at most all of it.
pub open spec fn repay_amount(debt: int, close_factor: int) -> int {
    min_int(debt * close_factor / (BPS as int), debt)
}

/// The collateral tokens paid for a repayment worth `repaid_value`: that
/// value plus the bonus, at the collateral price, at most the whole
/// `collateral`. Collateral with no price is taken whole.
pub open spec fn seize_amount(repaid_value: int, bonus: int, collateral_price: int, collateral: int) -> int {
    if collateral_price == 0 {
        collateral
    } else {
        min_int((repaid_value + repaid_value * bonus / (BPS as int)) / collateral_price, collateral)
    }
}

/// The inputs of a liquidation are sound: both banks are well formed, the
/// target's accrued amounts agree with its record, both pool accruals are
/// valid, and after them the target's stakes are part of their pools.
pub open spec fn liquidation_sound(
    cb: Bank,
    bb: Bank,
    target: User,
    c: TokenType,
    now: i64,
    collateral_pool: u64,
    debt_pool: u64,
    accrued_collateral: u64,
    accrued_debt: u64,
) -> bool {
    let hc = target.held(c);
    let hd = target.held(c.counterpart());
    let cb1 = deposits_accrued(cb, now, collateral_pool)->Ok_0;
    let bb1 = borrows_accrued(bb, now, debt_pool)->Ok_0;
    &&& cb.wf()
    &&& bb.wf()
    &&& stake_accrual(hc.deposited, target.last_updated, now, accrued_collateral) is Ok
    &&& stake_accrual(hd.borrowed, target.last_updated, now, accrued_debt) is Ok
    &&& deposits_accrued(cb, now, collateral_pool) is Ok
    &&& borrows_accrued(bb, now, debt_pool) is Ok
    &&& stake_backed(cb1.total_deposits, cb1.total_deposits_shares, accrued_collateral, hc.deposited_shares)
    &&& stake_backed(bb1.total_borrows, bb1.total_borrows_shares, accrued_debt, hd.borrowed_shares)
}

/// Both quotes that a liquidation with collateral `c` reads are fresh at `now`.
pub open spec fn prices_fresh(prices: Prices, c: TokenType, now: i64) -> bool {
    prices.fresh(c, now) && prices.fresh(c.counterpart(), now)
}

/// The position's health factor, at the accrued amounts and the quoted
/// prices, is below one.
pub open spec fn position_unhealthy(
    collateral_bank: Bank,
    c: TokenType,
    prices: Prices,
    accrued_collateral: u64,
    accrued_debt: u64,
) -> bool {
    unhealthy(
        accrued_collateral * prices.quote(c).value,
        collateral_bank.liquidation_threshold as int,
        accrued_debt * prices.quote(c.counterpart()).value,
    )
}

/// The collateral and debt values fit in 64 bits.
pub open spec fn values_fit(c: TokenType, prices: Prices, accrued_collateral: u64, accrued_debt: u64) -> bool {
    accrued_collateral * prices.quote(c).value <= u64::MAX && accrued_debt * prices.quote(
        c.counterpart(),
    ).value <= u64::MAX
}

/// Settlement of a liquidation against pools already brought forward.
pub open spec fn liquidation_settlement(
    cb: Bank,
    bb: Bank,
    target: User,
    c: TokenType,
    now: i64,
    accrued_collateral: u64,
    accrued_debt: u64,
    repaid: u64,
    seized: u64,
) -> Result<(Bank, Bank, User, Liquidation), ErrorCode> {
    let d = c.counterpart();
    let hd = target.held(d);
    let hc = target.held(c);
    match settle_outcome(repaid, bb.total_borrows, bb.total_borrows_shares, accrued_debt, hd.borrowed_shares) {
        Err(e) => Err(e),
        Ok(bd) => match settle_outcome(
            seized,
            cb.total_deposits,
            cb.total_deposits_shares,
            accrued_collateral,
            hc.deposited_shares,
        ) {
            Err(e) => Err(e),
            Ok(bc) => Ok(
                (
                    Bank {
                        total_deposits: (cb.total_deposits - seized) as u64,
                        total_deposits_shares: (cb.total_deposits_shares - bc) as u64,
                        ..cb
                    },
                    Bank {
                        total_borrows: (bb.total_borrows - repaid) as u64,
                        total_borrows_shares: (bb.total_borrows_shares - bd) as u64,
                        ..bb
                    },
                    target.with_held(
                        d,
                        Holding {
                            borrowed: (accrued_debt - repaid) as u64,
                            borrowed_shares: (hd.borrowed_shares - bd) as u64,
                            ..hd
                        },
                        now,
                    ).with_held(
                        c,
                        Holding {
                            deposited: (accrued_collateral - seized) as u64,
                            deposited_shares: (hc.deposited_shares - bc) as u64,
                            ..hc
                        },
                        now,
                    ),
                    Liquidation { repaid, seized },
                ),
            ),
        },
    }
}

/// The liquidation of `target`, whose deposit of asset `c` (recorded amount
/// with interest: `accrued_collateral`) backs a debt in the other asset
/// (`accrued_debt`). `collateral_pool` and `debt_pool` are the collateral
/// bank's deposit side and the borrowed bank's borrow side brought forward to
/// `now`. The result is the new collateral bank, borrowed bank and position,
/// and the amounts moved; or the reason it is refused.
pub open spec fn liquidate_outcome(
    cb: Bank,
    bb: Bank,
    target: User,
    c: TokenType,
    prices: Prices,
    now: i64,
    collateral_pool: u64,
    debt_pool: u64,
    accrued_collateral: u64,
    accrued_debt: u64,
) -> Result<(Bank, Bank, User, Liquidation), ErrorCode> {
    let d = c.counterpart();
    let pc = prices.quote(c).value;
    let pd = prices.quote(d).value;
    let cv = accrued_collateral * pc;
    let bv = accrued_debt * pd;
    let repaid = repay_amount(accrued_debt as int, bb.liquidation_close_factor as int);
    let seized = seize_amount(repaid * pd, cb.liquidation_bonus as int, pc as int, accrued_collateral as int);
    let hc = target.held(c);
    let hd = target.held(d);
    if !prices_fresh(prices, c, now) {
        Err(ErrorCode::StalePriceFeed)
    } else if cv > u64::MAX || bv > u64::MAX {
        Err(ErrorCode::Overflow)
    } else if !unhealthy(cv, cb.liquidation_threshold as int, bv) {
        Err(ErrorCode::AccountNotUnhealthy)
    } else if stake_accrual(hc.deposited, target.last_updated, now, accrued_collateral) is Err {
        Err(stake_accrual(hc.deposited, target.last_updated, now, accrued_collateral)->Err_0)
    } else if stake_accrual(hd.borrowed, target.last_updated, now, accrued_debt) is Err {
        Err(stake_accrual(hd.borrowed, target.last_updated, now, accrued_debt)->Err_0)
    } else {
        match deposits_accrued(cb, now, collateral_pool) {
            Err(e) => Err(e),
            Ok(cb1) => match borrows_accrued(bb, now, debt_pool) {
                Err(e) => Err(e),
                Ok(bb1) => liquidation_settlement(
                    cb1,
                    bb1,
                    target,
                    c,
                    now,
                    accrued_collateral,
                    accrued_debt,
                    repaid as u64,
                    seized as u64,
                ),
            },
        }
    }
}

/// Computes `repay_amount`.
pub fn repay_tokens(debt: u64, close_factor: u64) -> (r: u64)
    ensures
        r == repay_amount(debt as int, close_factor as int),
{
    proof {
        lemma_product_fits(debt, close_factor);
    }
    let share: u128 = (debt as u128) * (close_factor as u128) / (BPS as u128);
    if share > debt as u128 {
        debt
    } else {
        share as u64
    }
}

/// Computes `seize_amount`.
pub fn seize_tokens(repaid_value: u64, bonus: u64, collateral_price: u64, collateral: u64) -> (r: u64)
    ensures
        r == seize_amount(repaid_value as int, bonus as int, collateral_price as int, collateral as int),
{
    if collateral_price == 0 {
        return collateral;
    }
    proof {
        lemma_product_fits(repaid_value, bonus);
    }
    let extra: u128 = (repaid_value as u128) * (bonus as u128) / (BPS as u128);
    let worth: u128 = (repaid_value as u128 + extra) / (collateral_price as u128);
    if worth > collateral as u128 {
        collateral
    } else {
        worth as u64
    }
}

/// Liquidates `target`'s loan backed by its deposit of `collateral`. The
/// caller moves `repaid` and `seized` as `Liquidation` describes; the ledgers
/// already reflect both moves when this returns.
pub fn process_liquidate(
    collateral_bank: &mut Bank,
    borrowed_bank: &mut Bank,
    target: &mut User,
    collateral: TokenType,
    prices: Prices,
    now: i64,
    collateral_pool: u64,
    debt_pool: u64,
    accrued_collateral: u64,
    accrued_debt: u64,
) -> (r: Result<Liquidation, ErrorCode>)
    ensures
        match liquidate_outcome(
            *old(collateral_bank),
            *old(borrowed_bank),
            *old(target),
            collateral,
            prices,
            now,
            collateral_pool,
            debt_pool,
            accrued_collateral,
            accrued_debt,
        ) {
            Ok((cb, bb, u, l)) => r == Ok::<Liquidation, ErrorCode>(l) && *final(collateral_bank) == cb
                && *final(borrowed_bank) == bb && *final(target) == u,
            Err(e) => r == Err::<Liquidation, ErrorCode>(e) && *final(collateral_bank) == *old(collateral_bank)
                && *final(borrowed_bank) == *old(borrowed_bank) && *final(target) == *old(target),
        },
        old(collateral_bank).wf() && r is Ok ==> final(collateral_bank).wf(),
        old(borrowed_bank).wf() && r is Ok ==> final(borrowed_bank).wf(),
        !position_unhealthy(*old(collateral_bank), collateral, prices, accrued_collateral, accrued_debt)
            ==> r is Err,
        !position_unhealthy(*old(collateral_bank), collateral, prices, accrued_collateral, accrued_debt)
            && prices_fresh(prices, collateral, now) && values_fit(
            collateral,
            prices,
            accrued_collateral,
            accrued_debt,
        ) ==> r == Err::<Liquidation, ErrorCode>(ErrorCode::AccountNotUnhealthy),
        position_unhealthy(*old(collateral_bank), collateral, prices, accrued_collateral, accrued_debt)
            && prices_fresh(prices, collateral, now) ==> r != Err::<Liquidation, ErrorCode>(
            ErrorCode::AccountNotUnhealthy,
        ) && r != Err::<Liquidation, ErrorCode>(ErrorCode::StalePriceFeed),
        position_unhealthy(*old(collateral_bank), collateral, prices, accrued_collateral, accrued_debt)
            && prices_fresh(prices, collateral, now) && values_fit(
            collateral,
            prices,
            accrued_collateral,
            accrued_debt,
        ) && liquidation_sound(
            *old(collateral_bank),
            *old(borrowed_bank),
            *old(target),
            collateral,
            now,
            collateral_pool,
            debt_pool,
            accrued_collateral,
            accrued_debt,
        ) ==> r is Ok,
{
    let debt = collateral.other();
    if !prices.is_fresh(collateral, now) || !prices.is_fresh(debt, now) {
        return Err(ErrorCode::StalePriceFeed);
    }
    let pc = prices.quote_of(collateral).value;
    let pd = prices.quote_of(debt).value;
    let cv = match collateral_value(accrued_collateral, pc) {
        Ok(v) => v,
        Err(e) => return Err(e),
    };
    let bv = match collateral_value(accrued_debt, pd) {
        Ok(v) => v,
        Err(e) => return Err(e),
    };
    if !is_unhealthy(cv, collateral_bank.liquidation_threshold, bv) {
        return Err(ErrorCode::AccountNotUnhealthy);
    }
    let hd = target.holding(debt);
    let hc = target.holding(collateral);
    match check_stake_accrual(hc.deposited, target.last_updated, now, accrued_collateral) {
        Ok(()) => {},
        Err(e) => return Err(e),
    }
    match check_stake_accrual(hd.borrowed, target.last_updated, now, accrued_debt) {
        Ok(()) => {},
        Err(e) => return Err(e),
    }
    let mut cb = *collateral_bank;
    let mut bb = *borrowed_bank;
    match cb.accrue_deposits(now, collateral_pool) {
        Ok(()) => {},
        Err(e) => return Err(e),
    }
    match bb.accrue_borrows(now, debt_pool) {
        Ok(()) => {},
        Err(e) => return Err(e),
    }
    let repaid = repay_tokens(accrued_debt, bb.liquidation_close_factor);
    proof {
        assert((repaid as int) * (pd as int) <= (accrued_debt as int) * (pd as int)) by (nonlinear_arith)
            requires
                repaid <= accrued_debt,
        ;
    }
    let repaid_value: u64 = repaid * pd;
    let seized = seize_tokens(repaid_value, cb.liquidation_bonus, pc, accrued_collateral);
    proof {
        if liquidation_sound(
            *old(collateral_bank),
            *old(borrowed_bank),
            *old(target),
            collateral,
            now,
            collateral_pool,
            debt_pool,
            accrued_collateral,
            accrued_debt,
        ) {
            lemma_settle_succeeds(repaid, bb.total_borrows, bb.total_borrows_shares, accrued_debt, hd.borrowed_shares);
            lemma_settle_succeeds(
                seized,
                cb.total_deposits,
                cb.total_deposits_shares,
                accrued_collateral,
                hc.deposited_shares,
            );
        }
    }
    let bd = match settle(repaid, bb.total_borrows, bb.total_borrows_shares, accrued_debt, hd.borrowed_shares) {
        Ok(s) => s,
        Err(e) => return Err(e),
    };
    let bc = match settle(seized, cb.total_deposits, cb.total_deposits_shares, accrued_collateral, hc.deposited_shares) {
        Ok(s) => s,
        Err(e) => return Err(e),
    };
    bb.total_borrows = bb.total_borrows - repaid;
    bb.total_borrows_shares = bb.total_borrows_shares - bd;
    cb.total_deposits = cb.total_deposits - seized;
    cb.total_deposits_shares = cb.total_deposits_shares - bc;
    *borrowed_bank = bb;
    *collateral_bank = cb;
    target.set_holding(
        debt,
        Holding { borrowed: accrued_debt - repaid, borrowed_shares: hd.borrowed_shares - bd, ..hd },
        now,
    );
    target.set_holding(
        collateral,
        Holding { deposited: accrued_collateral - seized, deposited_shares: hc.deposited_shares - bc, ..hc },
        now,
    );
    Ok(Liquidation { repaid, seized })
}

} // verus!
