//! Properties of the ledger that hold across operations.
use vstd::prelude::*;

use crate::engine::{deposit_outcome, withdraw_outcome};
use crate::interest::{borrows_accrued, deposits_accrued};
use crate::ledger::amount_for;
use crate::state::{Bank, TokenType, User};

verus! {

/// Deposit shares of asset `t` held by all the given positions together.
pub open spec fn deposit_shares_held(users: Seq<User>, t: TokenType) -> int
    decreases users.len(),
{
    if users.len() == 0 {
        0
    } else {
        deposit_shares_held(users.drop_last(), t) + users.last().held(t).deposited_shares
    }
}

/// One operation of a sequence on a bank: `user` indexes the positions.
#[derive(Clone, Copy, Debug, PartialEq, Eq, Structural)]
pub enum LedgerOp {
    /// A deposit at `now`, with the deposit side accrued to `accrued_total`.
    Deposit { user: usize, amount: u64, now: i64, accrued_total: u64 },
    /// A withdrawal at `now`; `accrued_deposit` is the position's recorded
    /// deposit with interest.
    Withdraw { user: usize, amount: u64, now: i64, accrued_total: u64, accrued_deposit: u64 },
}

/// The bank and positions after `op`; a failed operation changes nothing.
pub open spec fn apply_op(bank: Bank, users: Seq<User>, t: TokenType, op: LedgerOp) -> (Bank, Seq<User>) {
    match op {
        LedgerOp::Deposit { user, amount, now, accrued_total } => if user < users.len() {
            match deposit_outcome(bank, users[user as int], t, amount, now, accrued_total) {
                Ok((b, u)) => (b, users.update(user as int, u)),
                Err(_) => (bank, users),
            }
        } else {
            (bank, users)
        },
        LedgerOp::Withdraw { user, amount, now, accrued_total, accrued_deposit } => if user
            < users.len() {
            match withdraw_outcome(bank, users[user as int], t, amount, now, accrued_total, accrued_deposit) {
                Ok((b, u)) => (b, users.update(user as int, u)),
                Err(_) => (bank, users),
            }
        } else {
            (bank, users)
        },
    }
}

/// The bank and positions after the operations `ops`, in order.
pub open spec fn replay(bank: Bank, users: Seq<User>, t: TokenType, ops: Seq<LedgerOp>) -> (Bank, Seq<User>)
    decreases ops.len(),
{
    if ops.len() == 0 {
        (bank, users)
    } else {
        let (b, us) = replay(bank, users, t, ops.drop_last());
        apply_op(b, us, t, ops.last())
    }
}

proof fn lemma_held_update(users: Seq<User>, t: TokenType, i: int, u: User)
    requires
        0 <= i < users.len(),
    ensures
        deposit_shares_held(users.update(i, u), t) == deposit_shares_held(users, t)
            - users[i].held(t).deposited_shares + u.held(t).deposited_shares,
    decreases users.len(),
{
    let us2 = users.update(i, u);
    if i == users.len() - 1 {
        assert(us2.drop_last() =~= users.drop_last());
    } else {
        lemma_held_update(users.drop_last(), t, i, u);
        assert(us2.drop_last() =~= users.drop_last().update(i, u));
    }
}

/// One deposit or withdrawal moves the shares held by the positions and the
/// bank's share total by the same amount.
proof fn lemma_op_keeps_share_gap(bank: Bank, users: Seq<User>, t: TokenType, op: LedgerOp)
    ensures
        ({
            let (b, us) = apply_op(bank, users, t, op);
            deposit_shares_held(us, t) - b.total_deposits_shares == deposit_shares_held(users, t)
                - bank.total_deposits_shares
        }),
{
    match op {
        LedgerOp::Deposit { user, amount, now, accrued_total } => {
            if user < users.len() {
                if let Ok((b, u)) = deposit_outcome(bank, users[user as int], t, amount, now, accrued_total) {
                    lemma_held_update(users, t, user as int, u);
                }
            }
        },
        LedgerOp::Withdraw { user, amount, now, accrued_total, accrued_deposit } => {
            if user < users.len() {
                if let Ok((b, u)) = withdraw_outcome(
                    bank,
                    users[user as int],
                    t,
                    amount,
                    now,
                    accrued_total,
                    accrued_deposit,
                ) {
                    lemma_held_update(users, t, user as int, u);
                }
            }
        },
    }
}

/// Share conservation: over any sequence of deposits and withdrawals of asset
/// `t` on its bank, the deposit shares held by the positions never exceed the
/// bank's total; they stay equal to it when they start equal. Each operation
/// mints or burns the same shares on both sides, so rounding loses tokens,
/// never shares.
pub proof fn lemma_share_conservation(bank: Bank, users: Seq<User>, t: TokenType, ops: Seq<LedgerOp>)
    requires
        deposit_shares_held(users, t) <= bank.total_deposits_shares,
    ensures
        ({
            let (b, us) = replay(bank, users, t, ops);
            &&& deposit_shares_held(us, t) <= b.total_deposits_shares
            &&& deposit_shares_held(us, t) - b.total_deposits_shares == deposit_shares_held(users, t)
                - bank.total_deposits_shares
        }),
    decreases ops.len(),
{
    if ops.len() > 0 {
        lemma_share_conservation(bank, users, t, ops.drop_last());
        let (b, us) = replay(bank, users, t, ops.drop_last());
        lemma_op_keeps_share_gap(b, us, t, ops.last());
    }
}

/// A share is worth no less in a pool whose total grew while its share count
/// stayed the same.
pub proof fn lemma_share_value_monotone(shares: u64, total: u64, grown: u64, total_shares: u64)
    requires
        total <= grown,
    ensures
        amount_for(shares as int, total as int, total_shares as int) <= amount_for(
            shares as int,
            grown as int,
            total_shares as int,
        ),
{
    if total_shares > 0 {
        assert((shares as int) * (total as int) <= (shares as int) * (grown as int)) by (nonlinear_arith)
            requires
                total <= grown,
        ;
        vstd::arithmetic::div_mod::lemma_div_is_ordered(
            (shares as int) * (total as int),
            (shares as int) * (grown as int),
            total_shares as int,
        );
    }
}

/// Exchange-rate monotonicity: bringing either side of a bank forward in
/// time, whenever that succeeds, leaves every fixed number of shares worth at
/// least as much on that side.
pub proof fn lemma_accrual_keeps_share_value(bank: Bank, now: i64, grown: u64, shares: u64)
    ensures
        deposits_accrued(bank, now, grown) matches Ok(b) ==> amount_for(
            shares as int,
            bank.total_deposits as int,
            bank.total_deposits_shares as int,
        ) <= amount_for(shares as int, b.total_deposits as int, b.total_deposits_shares as int),
        borrows_accrued(bank, now, grown) matches Ok(b) ==> amount_for(
            shares as int,
            bank.total_borrows as int,
            bank.total_borrows_shares as int,
        ) <= amount_for(shares as int, b.total_borrows as int, b.total_borrows_shares as int),
{
    if let Ok(b) = deposits_accrued(bank, now, grown) {
        lemma_share_value_monotone(shares, bank.total_deposits, b.total_deposits, bank.total_deposits_shares);
    }
    if let Ok(b) = borrows_accrued(bank, now, grown) {
        lemma_share_value_monotone(shares, bank.total_borrows, b.total_borrows, bank.total_borrows_shares);
    }
}

} // verus!
