//! Share-based accounting for a two-asset collateralized lending pool.
//!
//! Each asset has a [`state::Bank`] whose deposit and borrow sides issue
//! shares against their token totals; each user has a [`state::User`]
//! position. The five operations live in [`engine`] and [`liquidation`]: they
//! check everything first and change nothing on error, so a caller can
//! perform the token transfers and commit the new records only if those
//! succeed.
//!
//! Conventions:
//! - Conversions between tokens and shares round down, in the pool's favour
//!   ([`ledger`]).
//! - Interest is continuously compounded in floating point by the caller;
//!   the engine takes the accrued amounts as arguments and checks them
//!   against the clock of the side they belong to (a total may not shrink).
//!   Each side of a bank accrues on its own clock, so an operation brings
//!   forward only the side it touches. Double precision is a deliberate
//!   trade-off; an integer fixed-point exponential would remove it.
//! - `liquidation_threshold` multiplies raw collateral value (no fixed-point
//!   base); `liquidation_close_factor` and `liquidation_bonus` are in basis
//!   points ([`state::BPS`]).
//! - A liquidation repays the close factor's fraction of the debt, in tokens
//!   of the borrowed asset and at most the whole debt, and seizes that
//!   repayment's value plus the bonus in collateral tokens at the collateral
//!   price, at most the whole collateral. Reading the close factor as applied
//!   to the debt's value would move a value as a token count (see
//!   [`liquidation`]). It is reconciled in full: both pools are accrued, and
//!   the repaid debt and seized collateral leave the target position and both
//!   banks, shares included.
//! - Amounts a position's record has accrued to are supplied by the caller
//!   too, and checked against the position's clock and record.

pub mod engine;
pub mod error;
pub mod health;
pub mod interest;
pub mod laws;
pub mod ledger;
pub mod liquidation;
pub mod state;
