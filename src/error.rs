use vstd::prelude::*;

verus! {

/// Every way an operation of the lending engine can fail. A failed operation
/// leaves all ledger state as it was.
#[derive(Clone, Copy, Debug, PartialEq, Eq, Structural)]
pub enum ErrorCode {
    /// A withdrawal asks for more than the position's deposit is worth.
    InsufficientFunds,
    /// A borrow asks for more than the collateral allows.
    OverBorrowableAmount,
    /// A repayment exceeds what the position owes.
    OverRepay,
    /// A liquidation was attempted on a healthy position.
    AccountNotUnhealthy,
    /// A share conversion against a pool that has no shares.
    DivisionByZero,
    /// A result does not fit in 64 bits.
    Overflow,
    /// A balance would drop below zero.
    Underflow,
    /// A price is older than the allowed staleness.
    StalePriceFeed,
    /// The asset transfer that an operation depends on did not happen.
    TransferFailed,
    /// Time ran backwards between two accruals.
    InvalidElapsedTime,
}

} // verus!
