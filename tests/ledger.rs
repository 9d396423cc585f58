use lending::error::ErrorCode;
use lending::interest::elapsed_seconds;
use lending::ledger::{amount_to_shares, mint, redeem, settle, shares_to_amount};
use lending::state::{process_initialize_bank, BPS};

#[test]
fn bootstrap_mints_one_share_per_token() {
    assert_eq!(amount_to_shares(1000, 0, 0), Ok(1000));
}

#[test]
fn amount_to_shares_rounds_down() {
    // 10 * 2 / 3 = 6.67
    assert_eq!(amount_to_shares(10, 3, 2), Ok(6));
    assert_eq!(amount_to_shares(500_000, 1_000_000, 1_000_000), Ok(500_000));
    assert_eq!(amount_to_shares(1, 3, 1), Ok(0));
}

#[test]
fn amount_to_shares_overflow() {
    assert_eq!(amount_to_shares(u64::MAX, 1, 2), Err(ErrorCode::Overflow));
}

#[test]
fn shares_to_amount_rounds_down() {
    // 3 * 10 / 4 = 7.5
    assert_eq!(shares_to_amount(3, 10, 4), Ok(7));
    assert_eq!(shares_to_amount(0, 0, 0), Ok(0));
}

#[test]
fn shares_to_amount_division_by_zero() {
    assert_eq!(shares_to_amount(5, 10, 0), Err(ErrorCode::DivisionByZero));
}

#[test]
fn shares_to_amount_overflow() {
    assert_eq!(shares_to_amount(u64::MAX, u64::MAX, 1), Err(ErrorCode::Overflow));
}

#[test]
fn mint_checks_every_sum() {
    assert_eq!(mint(100, 200, 100, 0, 0), Ok(50));
    assert_eq!(mint(1, u64::MAX, u64::MAX, 0, 0), Err(ErrorCode::Overflow));
    assert_eq!(mint(1, 1, 1, u64::MAX, 0), Err(ErrorCode::Overflow));
}

#[test]
fn redeem_values_and_clamps() {
    // a stake of 50 shares in a pool of 120 tokens / 100 shares is worth 60
    assert_eq!(redeem(60, 120, 100, 60, 50, ErrorCode::InsufficientFunds), Ok(50));
    assert_eq!(redeem(61, 120, 100, 70, 50, ErrorCode::OverRepay), Err(ErrorCode::OverRepay));
    assert_eq!(redeem(1, 10, 0, 5, 3, ErrorCode::OverRepay), Err(ErrorCode::DivisionByZero));
    // shares cover the amount but the recorded amount does not
    assert_eq!(redeem(50, 120, 100, 40, 50, ErrorCode::InsufficientFunds), Err(ErrorCode::Underflow));
}

#[test]
fn settle_refuses_to_strand_shares() {
    // all tokens leave but another holder's shares would remain
    assert_eq!(settle(100, 100, 100, 100, 50), Err(ErrorCode::Underflow));
    assert_eq!(settle(10, 100, 100, 5, 50), Err(ErrorCode::Underflow));
    assert_eq!(settle(10, 100, 100, 10, 50), Ok(10));
}

#[test]
fn elapsed_time() {
    assert_eq!(elapsed_seconds(100, 40), Ok(60));
    assert_eq!(elapsed_seconds(100, 100), Ok(0));
    assert_eq!(elapsed_seconds(i64::MAX, i64::MIN), Ok(u64::MAX));
    assert_eq!(elapsed_seconds(39, 40), Err(ErrorCode::InvalidElapsedTime));
}

#[test]
fn accrual_rejects_time_running_backwards() {
    let mut bank = process_initialize_bank(1, 0, 0, 0, 0, 100);
    let before = bank;
    assert_eq!(bank.accrue_deposits(99, 0), Err(ErrorCode::InvalidElapsedTime));
    assert_eq!(bank.accrue_borrows(99, 0), Err(ErrorCode::InvalidElapsedTime));
    assert_eq!(bank, before);
}

#[test]
fn accrual_keeps_empty_sides_empty() {
    let mut bank = process_initialize_bank(1, 0, 0, 0, 0, 0);
    assert_eq!(bank.accrue_deposits(5, 7), Ok(()));
    assert_eq!(bank.total_deposits, 0);
    assert_eq!(bank.deposits_last_updated, 5);
    assert_eq!(bank.borrows_last_updated, 0);
}

#[test]
fn accrual_may_not_shrink_a_pool() {
    let mut bank = process_initialize_bank(1, 0, 0, 0, 0, 0);
    bank.total_deposits = 10;
    bank.total_deposits_shares = 10;
    bank.total_borrows = 4;
    bank.total_borrows_shares = 4;
    let before = bank;
    assert_eq!(bank.accrue_deposits(5, 9), Err(ErrorCode::Underflow));
    assert_eq!(bank.accrue_borrows(5, 0), Err(ErrorCode::Underflow));
    assert_eq!(bank, before);
}

#[test]
fn accrual_touches_one_side() {
    let mut bank = process_initialize_bank(1, 0, 0, 0, 0, 0);
    bank.total_deposits = 10;
    bank.total_deposits_shares = 10;
    bank.total_borrows = 4;
    bank.total_borrows_shares = 4;
    assert_eq!(bank.accrue_borrows(5, 6), Ok(()));
    assert_eq!((bank.total_deposits, bank.deposits_last_updated), (10, 0));
    assert_eq!((bank.total_borrows, bank.borrows_last_updated), (6, 5));
}

#[test]
fn accrued_interest_raises_share_value() {
    let mut bank = process_initialize_bank(1, 0, 0, 0, 0, 0);
    bank.total_deposits = 1_000;
    bank.total_deposits_shares = 1_000;
    let before = shares_to_amount(400, bank.total_deposits, bank.total_deposits_shares).unwrap();
    bank.accrue_deposits(10, 1_050).unwrap();
    let after = shares_to_amount(400, bank.total_deposits, bank.total_deposits_shares).unwrap();
    assert_eq!(before, 400);
    assert_eq!(after, 420);
}

#[test]
fn basis_point_base() {
    assert_eq!(BPS, 10_000);
}
