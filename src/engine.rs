//! The operations of the lending engine. Each one validates everything before
//! it changes anything: on error the bank and the position are left as they were.
//! Interest computed by the caller comes in as accrued totals: `accrued_total`
//! is the side of the bank the operation touches, brought forward to `now`.
use vstd::prelude::*;

use crate::error::ErrorCode;
use crate::health::{borrowable_amount, collateral_value};
use crate::interest::{borrows_accrued, check_stake_accrual, deposits_accrued, stake_accrual};
use crate::ledger::{amount_for, mint, mint_outcome, redeem, redeem_outcome};
use crate::state::{Bank, Holding, Prices, TokenType, User};

verus! {

/// `r`, `bank1` and `user1` are what an operation with model `outcome`
/// produced from `bank0` and `user0`.
pub open spec fn applied(
    r: Result<(), ErrorCode>,
    outcome: Result<(Bank, User), ErrorCode>,
    bank0: Bank,
    user0: User,
    bank1: Bank,
    user1: User,
) -> bool {
    match outcome {
        Ok((b, u)) => r == Ok::<(), ErrorCode>(()) && bank1 == b && user1 == u,
        Err(e) => r == Err::<(), ErrorCode>(e) && bank1 == bank0 && user1 == user0,
    }
}

/// A deposit into a bank whose deposit side is already accrued.
pub open spec fn deposit_step(b: Bank, u: User, t: TokenType, amount: u64, now: i64) -> Result<(Bank, User), ErrorCode> {
    let h = u.held(t);
    match mint_outcome(amount, b.total_deposits, b.total_deposits_shares, h.deposited, h.deposited_shares) {
        Err(e) => Err(e),
        Ok(m) => Ok(
            (
                Bank { total_deposits: (b.total_deposits + amount) as u64, total_deposits_shares: (b.total_deposits_shares + m) as u64, ..b },
                u.with_held(
                    t,
                    Holding { deposited: (h.deposited + amount) as u64, deposited_shares: (h.deposited_shares + m) as u64, ..h },
                    now,
                ),
            ),
        ),
    }
}

/// A loan out of a bank, recorded on its borrow side at the current rate.
pub open spec fn borrow_step(b: Bank, u: User, t: TokenType, amount: u64, now: i64) -> Result<(Bank, User), ErrorCode> {
    let h = u.held(t);
    match mint_outcome(amount, b.total_borrows, b.total_borrows_shares, h.borrowed, h.borrowed_shares) {
        Err(e) => Err(e),
        Ok(m) => Ok(
            (
                Bank { total_borrows: (b.total_borrows + amount) as u64, total_borrows_shares: (b.total_borrows_shares + m) as u64, ..b },
                u.with_held(
                    t,
                    Holding { borrowed: (h.borrowed + amount) as u64, borrowed_shares: (h.borrowed_shares + m) as u64, ..h },
                    now,
                ),
            ),
        ),
    }
}

/// A withdrawal from a bank whose deposit side is already accrued; `accrued_deposit`
/// is the position's recorded deposit with interest.
/// The shares burned are those `amount` is worth at the pool's rate, at most
/// the stake; the recorded amount becomes `accrued_deposit - amount`.
pub open spec fn withdraw_step(b: Bank, u: User, t: TokenType, amount: u64, now: i64, accrued_deposit: u64) -> Result<(Bank, User), ErrorCode> {
    let h = u.held(t);
    match redeem_outcome(amount, b.total_deposits, b.total_deposits_shares, accrued_deposit, h.deposited_shares, ErrorCode::InsufficientFunds) {
        Err(e) => Err(e),
        Ok(burned) => Ok(
            (
                Bank { total_deposits: (b.total_deposits - amount) as u64, total_deposits_shares: (b.total_deposits_shares - burned) as u64, ..b },
                u.with_held(
                    t,
                    Holding { deposited: (accrued_deposit - amount) as u64, deposited_shares: (h.deposited_shares - burned) as u64, ..h },
                    now,
                ),
            ),
        ),
    }
}

/// A repayment to a bank whose borrow side is already accrued; `accrued_debt` is
/// the position's recorded debt with interest.
/// The shares burned are those `amount` is worth at the pool's rate, at most
/// the stake; the recorded amount becomes `accrued_debt - amount`.
pub open spec fn repay_step(b: Bank, u: User, t: TokenType, amount: u64, now: i64, accrued_debt: u64) -> Result<(Bank, User), ErrorCode> {
    let h = u.held(t);
    match redeem_outcome(amount, b.total_borrows, b.total_borrows_shares, accrued_debt, h.borrowed_shares, ErrorCode::OverRepay) {
        Err(e) => Err(e),
        Ok(burned) => Ok(
            (
                Bank { total_borrows: (b.total_borrows - amount) as u64, total_borrows_shares: (b.total_borrows_shares - burned) as u64, ..b },
                u.with_held(
                    t,
                    Holding { borrowed: (accrued_debt - amount) as u64, borrowed_shares: (h.borrowed_shares - burned) as u64, ..h },
                    now,
                ),
            ),
        ),
    }
}

/// Accrue the bank's deposit side, then credit `amount` and the shares it
/// buys to both the bank and the position.
pub open spec fn deposit_outcome(bank: Bank, user: User, t: TokenType, amount: u64, now: i64, accrued_total: u64) -> Result<(Bank, User), ErrorCode> {
    match deposits_accrued(bank, now, accrued_total) {
        Err(e) => Err(e),
        Ok(b) => deposit_step(b, user, t, amount, now),
    }
}

/// Accrue the bank's deposit side, check the position's accrued deposit,
/// check that the position's shares are worth `amount`, and take `amount` out.
pub open spec fn withdraw_outcome(
    bank: Bank,
    user: User,
    t: TokenType,
    amount: u64,
    now: i64,
    accrued_total: u64,
    accrued_deposit: u64,
) -> Result<(Bank, User), ErrorCode> {
    match deposits_accrued(bank, now, accrued_total) {
        Err(e) => Err(e),
        Ok(b) => match stake_accrual(user.held(t).deposited, user.last_updated, now, accrued_deposit) {
            Err(e) => Err(e),
            Ok(()) => withdraw_step(b, user, t, amount, now, accrued_deposit),
        },
    }
}

/// Accrue the bank's borrow side, check the position's accrued debt, check
/// that the position's borrow shares are worth `amount`, and take `amount`
/// off the debt.
pub open spec fn repay_outcome(
    bank: Bank,
    user: User,
    t: TokenType,
    amount: u64,
    now: i64,
    accrued_total: u64,
    accrued_debt: u64,
) -> Result<(Bank, User), ErrorCode> {
    match borrows_accrued(bank, now, accrued_total) {
        Err(e) => Err(e),
        Ok(b) => match stake_accrual(user.held(t).borrowed, user.last_updated, now, accrued_debt) {
            Err(e) => Err(e),
            Ok(()) => repay_step(b, user, t, amount, now, accrued_debt),
        },
    }
}

/// Both quotes fresh, the position's accrued collateral (in the other asset)
/// consistent with its record and worth at
/// least `amount` once scaled by the collateral bank's liquidation
/// threshold; then record the loan and its shares.
pub open spec fn borrow_outcome(
    bank: Bank,
    collateral_bank: Bank,
    user: User,
    t: TokenType,
    amount: u64,
    now: i64,
    prices: Prices,
    accrued_collateral: u64,
) -> Result<(Bank, User), ErrorCode> {
    let value = accrued_collateral * prices.quote(t.counterpart()).value;
    let cap = value * collateral_bank.liquidation_threshold;
    let held = user.held(t.counterpart()).deposited;
    if !prices.fresh(t, now) || !prices.fresh(t.counterpart(), now) {
        Err(ErrorCode::StalePriceFeed)
    } else if stake_accrual(held, user.last_updated, now, accrued_collateral) is Err {
        Err(stake_accrual(held, user.last_updated, now, accrued_collateral)->Err_0)
    } else if value > u64::MAX || cap > u64::MAX {
        Err(ErrorCode::Overflow)
    } else if amount > cap {
        Err(ErrorCode::OverBorrowableAmount)
    } else {
        borrow_step(bank, user, t, amount, now)
    }
}

/// What the position's deposit shares of asset `t` are worth once the deposit
/// side is brought forward; `None` when the accrual fails or the value is
/// undefined (shares held against a side with none).
pub open spec fn deposit_entitlement(bank: Bank, user: User, t: TokenType, now: i64, accrued_total: u64) -> Option<int> {
    match deposits_accrued(bank, now, accrued_total) {
        Ok(b) => if b.total_deposits_shares == 0 && user.held(t).deposited_shares != 0 {
            None
        } else {
            Some(amount_for(user.held(t).deposited_shares as int, b.total_deposits as int, b.total_deposits_shares as int))
        },
        Err(_) => None,
    }
}

/// What the position's borrow shares of asset `t` are worth once the borrow
/// side is brought forward; `None` as for `deposit_entitlement`.
pub open spec fn debt_owed(bank: Bank, user: User, t: TokenType, now: i64, accrued_total: u64) -> Option<int> {
    match borrows_accrued(bank, now, accrued_total) {
        Ok(b) => if b.total_borrows_shares == 0 && user.held(t).borrowed_shares != 0 {
            None
        } else {
            Some(amount_for(user.held(t).borrowed_shares as int, b.total_borrows as int, b.total_borrows_shares as int))
        },
        Err(_) => None,
    }
}

/// Deposits `amount` of asset `token_type` for `user`.
pub fn process_deposit(
    bank: &mut Bank,
    user: &mut User,
    token_type: TokenType,
    amount: u64,
    now: i64,
    accrued_total: u64,
) -> (r: Result<(), ErrorCode>)
    ensures
        applied(
            r,
            deposit_outcome(*old(bank), *old(user), token_type, amount, now, accrued_total),
            *old(bank),
            *old(user),
            *final(bank),
            *final(user),
        ),
        old(bank).wf() && r is Ok ==> final(bank).wf(),
        old(bank).total_deposits == 0 && now >= old(bank).deposits_last_updated
            && old(bank).total_deposits_shares + amount <= u64::MAX && old(user).held(token_type).deposited
            + amount <= u64::MAX && old(user).held(token_type).deposited_shares + amount <= u64::MAX
            ==> r is Ok,
        old(bank).wf() && old(bank).total_deposits == 0 && r is Ok ==> final(bank).total_deposits
            == amount && final(bank).total_deposits_shares == amount && final(user).held(
            token_type,
        ).deposited_shares == old(user).held(token_type).deposited_shares + amount,
{
    let mut b = *bank;
    match b.accrue_deposits(now, accrued_total) {
        Ok(()) => {},
        Err(e) => return Err(e),
    }
    let h = user.holding(token_type);
    let minted = match mint(amount, b.total_deposits, b.total_deposits_shares, h.deposited, h.deposited_shares) {
        Ok(m) => m,
        Err(e) => return Err(e),
    };
    b.total_deposits = b.total_deposits + amount;
    b.total_deposits_shares = b.total_deposits_shares + minted;
    let held = Holding {
        deposited: h.deposited + amount,
        deposited_shares: h.deposited_shares + minted,
        ..h
    };
    *bank = b;
    user.set_holding(token_type, held, now);
    Ok(())
}

/// Withdraws `amount` of asset `token_type` from `user`'s deposit, whose
/// recorded amount with interest is `accrued_deposit`. Fails with
/// `InsufficientFunds` exactly when the position's shares are worth less than
/// `amount`.
pub fn process_withdraw(
    bank: &mut Bank,
    user: &mut User,
    token_type: TokenType,
    amount: u64,
    now: i64,
    accrued_total: u64,
    accrued_deposit: u64,
) -> (r: Result<(), ErrorCode>)
    ensures
        applied(
            r,
            withdraw_outcome(*old(bank), *old(user), token_type, amount, now, accrued_total, accrued_deposit),
            *old(bank),
            *old(user),
            *final(bank),
            *final(user),
        ),
        old(bank).wf() && r is Ok ==> final(bank).wf(),
        stake_accrual(old(user).held(token_type).deposited, old(user).last_updated, now, accrued_deposit) is Ok && deposit_entitlement(*old(bank), *old(user), token_type, now, accrued_total) is Some && amount > deposit_entitlement(*old(bank), *old(user), token_type, now, accrued_total)->Some_0 ==> r == Err::<(), ErrorCode>(ErrorCode::InsufficientFunds)
            && *final(bank) == *old(bank) && *final(user) == *old(user),
        stake_accrual(old(user).held(token_type).deposited, old(user).last_updated, now, accrued_deposit) is Ok && deposit_entitlement(*old(bank), *old(user), token_type, now, accrued_total) is Some && deposit_entitlement(*old(bank), *old(user), token_type, now, accrued_total)->Some_0 <= u64::MAX ==> ((r == Err::<(), ErrorCode>(ErrorCode::InsufficientFunds)) == (amount > deposit_entitlement(*old(bank), *old(user), token_type, now, accrued_total)->Some_0)),
{
    let mut b = *bank;
    match b.accrue_deposits(now, accrued_total) {
        Ok(()) => {},
        Err(e) => return Err(e),
    }
    let h = user.holding(token_type);
    match check_stake_accrual(h.deposited, user.last_updated, now, accrued_deposit) {
        Ok(()) => {},
        Err(e) => return Err(e),
    }
    let burned = match redeem(amount, b.total_deposits, b.total_deposits_shares, accrued_deposit, h.deposited_shares, ErrorCode::InsufficientFunds) {
        Ok(x) => x,
        Err(e) => return Err(e),
    };
    b.total_deposits = b.total_deposits - amount;
    b.total_deposits_shares = b.total_deposits_shares - burned;
    let next = Holding { deposited: accrued_deposit - amount, deposited_shares: h.deposited_shares - burned, ..h };
    *bank = b;
    user.set_holding(token_type, next, now);
    Ok(())
}

/// Repays `amount` of `user`'s debt in asset `token_type`, whose recorded
/// amount with interest is `accrued_debt`. Fails with `OverRepay` exactly
/// when the position's borrow shares are worth less than `amount`.
pub fn process_repay(
    bank: &mut Bank,
    user: &mut User,
    token_type: TokenType,
    amount: u64,
    now: i64,
    accrued_total: u64,
    accrued_debt: u64,
) -> (r: Result<(), ErrorCode>)
    ensures
        applied(
            r,
            repay_outcome(*old(bank), *old(user), token_type, amount, now, accrued_total, accrued_debt),
            *old(bank),
            *old(user),
            *final(bank),
            *final(user),
        ),
        old(bank).wf() && r is Ok ==> final(bank).wf(),
        stake_accrual(old(user).held(token_type).borrowed, old(user).last_updated, now, accrued_debt) is Ok && debt_owed(*old(bank), *old(user), token_type, now, accrued_total) is Some && amount > debt_owed(*old(bank), *old(user), token_type, now, accrued_total)->Some_0 ==> r == Err::<(), ErrorCode>(ErrorCode::OverRepay)
            && *final(bank) == *old(bank) && *final(user) == *old(user),
        stake_accrual(old(user).held(token_type).borrowed, old(user).last_updated, now, accrued_debt) is Ok && debt_owed(*old(bank), *old(user), token_type, now, accrued_total) is Some && debt_owed(*old(bank), *old(user), token_type, now, accrued_total)->Some_0 <= u64::MAX ==> ((r == Err::<(), ErrorCode>(ErrorCode::OverRepay)) == (amount > debt_owed(*old(bank), *old(user), token_type, now, accrued_total)->Some_0)),
{
    let mut b = *bank;
    match b.accrue_borrows(now, accrued_total) {
        Ok(()) => {},
        Err(e) => return Err(e),
    }
    let h = user.holding(token_type);
    match check_stake_accrual(h.borrowed, user.last_updated, now, accrued_debt) {
        Ok(()) => {},
        Err(e) => return Err(e),
    }
    let burned = match redeem(amount, b.total_borrows, b.total_borrows_shares, accrued_debt, h.borrowed_shares, ErrorCode::OverRepay) {
        Ok(x) => x,
        Err(e) => return Err(e),
    };
    b.total_borrows = b.total_borrows - amount;
    b.total_borrows_shares = b.total_borrows_shares - burned;
    let next = Holding { borrowed: accrued_debt - amount, borrowed_shares: h.borrowed_shares - burned, ..h };
    *bank = b;
    user.set_holding(token_type, next, now);
    Ok(())
}

/// Lends `amount` of asset `token_type` to `user` against their deposit of
/// the other asset, whose recorded amount with interest is
/// `accrued_collateral`. The borrow bank is not accrued: the loan is minted
/// at its current rate.
pub fn process_borrow(
    bank: &mut Bank,
    collateral_bank: &Bank,
    user: &mut User,
    token_type: TokenType,
    amount: u64,
    now: i64,
    prices: Prices,
    accrued_collateral: u64,
) -> (r: Result<(), ErrorCode>)
    ensures
        applied(
            r,
            borrow_outcome(*old(bank), *collateral_bank, *old(user), token_type, amount, now, prices, accrued_collateral),
            *old(bank),
            *old(user),
            *final(bank),
            *final(user),
        ),
        old(bank).wf() && r is Ok ==> final(bank).wf(),
{
    let collateral = token_type.other();
    if !prices.is_fresh(token_type, now) || !prices.is_fresh(collateral, now) {
        return Err(ErrorCode::StalePriceFeed);
    }
    match check_stake_accrual(user.holding(collateral).deposited, user.last_updated, now, accrued_collateral) {
        Ok(()) => {},
        Err(e) => return Err(e),
    }
    let value = match collateral_value(accrued_collateral, prices.quote_of(collateral).value) {
        Ok(v) => v,
        Err(e) => return Err(e),
    };
    let cap = match borrowable_amount(value, collateral_bank.liquidation_threshold) {
        Ok(c) => c,
        Err(e) => return Err(e),
    };
    if amount > cap {
        return Err(ErrorCode::OverBorrowableAmount);
    }
    let h = user.holding(token_type);
    let minted = match mint(amount, bank.total_borrows, bank.total_borrows_shares, h.borrowed, h.borrowed_shares) {
        Ok(m) => m,
        Err(e) => return Err(e),
    };
    bank.total_borrows = bank.total_borrows + amount;
    bank.total_borrows_shares = bank.total_borrows_shares + minted;
    let held = Holding {
        borrowed: h.borrowed + amount,
        borrowed_shares: h.borrowed_shares + minted,
        ..h
    };
    user.set_holding(token_type, held, now);
    Ok(())
}

} // verus!
