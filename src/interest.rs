//! Bringing one side of a bank forward in time.
use vstd::prelude::*;

use crate::error::ErrorCode;
use crate::state::Bank;

verus! {

/// Seconds from `last_updated` to `now`; time running backwards is a fault.
pub fn elapsed_seconds(now: i64, last_updated: i64) -> (r: Result<u64, ErrorCode>)
    ensures
        now < last_updated ==> r == Err::<u64, ErrorCode>(ErrorCode::InvalidElapsedTime),
        now >= last_updated ==> r == Ok::<u64, ErrorCode>((now - last_updated) as u64),
{
    if now < last_updated {
        Err(ErrorCode::InvalidElapsedTime)
    } else {
        Ok(((now as i128) - (last_updated as i128)) as u64)
    }
}

/// A side's total after interest brings it to `grown` at `now`. Interest is
/// never negative, so a total that shrinks is a fault; interest on an empty
/// side is zero.
pub open spec fn side_accrual(total: u64, last_updated: i64, now: i64, grown: u64) -> Result<u64, ErrorCode> {
    if now < last_updated {
        Err(ErrorCode::InvalidElapsedTime)
    } else if grown < total {
        Err(ErrorCode::Underflow)
    } else if total == 0 {
        Ok(0)
    } else {
        Ok(grown)
    }
}

/// The bank with its deposit side brought forward to `now`.
pub open spec fn deposits_accrued(b: Bank, now: i64, grown: u64) -> Result<Bank, ErrorCode> {
    match side_accrual(b.total_deposits, b.deposits_last_updated, now, grown) {
        Err(e) => Err(e),
        Ok(t) => Ok(Bank { total_deposits: t, deposits_last_updated: now, ..b }),
    }
}

/// The bank with its borrow side brought forward to `now`.
pub open spec fn borrows_accrued(b: Bank, now: i64, grown: u64) -> Result<Bank, ErrorCode> {
    match side_accrual(b.total_borrows, b.borrows_last_updated, now, grown) {
        Err(e) => Err(e),
        Ok(t) => Ok(Bank { total_borrows: t, borrows_last_updated: now, ..b }),
    }
}

fn accrue_side(total: u64, last_updated: i64, now: i64, grown: u64) -> (r: Result<u64, ErrorCode>)
    ensures
        r == side_accrual(total, last_updated, now, grown),
{
    if now < last_updated {
        Err(ErrorCode::InvalidElapsedTime)
    } else if grown < total {
        Err(ErrorCode::Underflow)
    } else if total == 0 {
        Ok(0)
    } else {
        Ok(grown)
    }
}

impl Bank {
    /// Applies accrued interest to the deposit side: its total becomes
    /// `grown`, the total interest brings it to at `now`.
    pub fn accrue_deposits(&mut self, now: i64, grown: u64) -> (r: Result<(), ErrorCode>)
        ensures
            match deposits_accrued(*old(self), now, grown) {
                Ok(b) => r == Ok::<(), ErrorCode>(()) && *final(self) == b,
                Err(e) => r == Err::<(), ErrorCode>(e) && *final(self) == *old(self),
            },
            old(self).wf() && r is Ok ==> final(self).wf(),
    {
        let t = match accrue_side(self.total_deposits, self.deposits_last_updated, now, grown) {
            Ok(t) => t,
            Err(e) => return Err(e),
        };
        self.total_deposits = t;
        self.deposits_last_updated = now;
        Ok(())
    }

    /// Applies accrued interest to the borrow side.
    pub fn accrue_borrows(&mut self, now: i64, grown: u64) -> (r: Result<(), ErrorCode>)
        ensures
            match borrows_accrued(*old(self), now, grown) {
                Ok(b) => r == Ok::<(), ErrorCode>(()) && *final(self) == b,
                Err(e) => r == Err::<(), ErrorCode>(e) && *final(self) == *old(self),
            },
            old(self).wf() && r is Ok ==> final(self).wf(),
    {
        let t = match accrue_side(self.total_borrows, self.borrows_last_updated, now, grown) {
            Ok(t) => t,
            Err(e) => return Err(e),
        };
        self.total_borrows = t;
        self.borrows_last_updated = now;
        Ok(())
    }
}

} // verus!

verus! {

/// A position's recorded amount `recorded`, last brought forward at
/// `last_updated`, said to have grown to `accrued` at `now`: time may not run
/// backwards and interest may not shrink the amount.
pub open spec fn stake_accrual(recorded: u64, last_updated: i64, now: i64, accrued: u64) -> Result<(), ErrorCode> {
    if now < last_updated {
        Err(ErrorCode::InvalidElapsedTime)
    } else if accrued < recorded {
        Err(ErrorCode::Underflow)
    } else {
        Ok(())
    }
}

/// Checks an accrued position amount; see `stake_accrual`.
pub fn check_stake_accrual(recorded: u64, last_updated: i64, now: i64, accrued: u64) -> (r: Result<(), ErrorCode>)
    ensures
        r == stake_accrual(recorded, last_updated, now, accrued),
{
    if now < last_updated {
        Err(ErrorCode::InvalidElapsedTime)
    } else if accrued < recorded {
        Err(ErrorCode::Underflow)
    } else {
        Ok(())
    }
}

} // verus!
