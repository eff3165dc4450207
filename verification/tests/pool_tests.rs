use rebel_protocol::errors::{ErrorCode, FlashLoanError};
use rebel_protocol::pool::{
    deposit_liquidity, flash_borrow, flash_repay, initialize_pool, FlashLoanPool,
    MAX_BORROW_AMOUNT, MIN_BORROW_AMOUNT,
};

fn funded_pool() -> FlashLoanPool {
    let mut pool = initialize_pool(1, 9).expect("fee within cap");
    deposit_liquidity(&mut pool, 100_000_000_000).expect("deposit fits");
    pool
}

#[test]
fn initialize_rejects_excessive_fee() {
    assert_eq!(initialize_pool(1, 101).err(), Some(FlashLoanError::FeeTooHigh));
    let pool = initialize_pool(1, 100).expect("cap itself is accepted");
    assert_eq!(pool.fee_bps, 100);
    assert!(!pool.flash_loan_active);
    assert_eq!(pool.total_deposited, 0);
}

#[test]
fn deposit_moves_liquidity_in() {
    let pool = funded_pool();
    assert_eq!(pool.total_deposited, 100_000_000_000);
    assert_eq!(pool.liquidity_balance, 100_000_000_000);
}

#[test]
fn fee_is_nine_thousandths_of_ten_units() {
    let pool = funded_pool();
    // ten units at nine basis points
    assert_eq!(pool.calculate_fee(10_000_000_000), Ok(9_000_000));
}

#[test]
fn borrow_bounds_are_enforced() {
    let mut pool = funded_pool();
    let r = flash_borrow(&mut pool, MIN_BORROW_AMOUNT - 1);
    assert_eq!(r.err(), Some(FlashLoanError::BorrowAmountTooLow));
    let r = flash_borrow(&mut pool, MAX_BORROW_AMOUNT + 1);
    assert_eq!(r.err(), Some(FlashLoanError::BorrowAmountTooHigh));
    assert!(!pool.flash_loan_active);
}

#[test]
fn borrow_needs_liquidity() {
    let mut pool = initialize_pool(1, 9).expect("fee within cap");
    deposit_liquidity(&mut pool, 20_000_000).expect("deposit fits");
    let r = flash_borrow(&mut pool, 30_000_000);
    assert_eq!(r.err(), Some(FlashLoanError::InsufficientLiquidity));
    assert_eq!(pool.liquidity_balance, 20_000_000);
}

#[test]
fn second_borrow_while_active_fails_without_state_change() {
    let mut pool = funded_pool();
    flash_borrow(&mut pool, 10_000_000_000).expect("first borrow");
    let snapshot = pool;
    let r = flash_borrow(&mut pool, 10_000_000);
    assert_eq!(r.err(), Some(FlashLoanError::FlashLoanActive));
    assert_eq!(pool, snapshot);
}

#[test]
fn repay_with_mismatched_amount_fails() {
    let mut pool = funded_pool();
    flash_borrow(&mut pool, 10_000_000_000).expect("borrow");
    let snapshot = pool;
    let r = flash_repay(&mut pool, 9_999_999_999);
    assert_eq!(r.err(), Some(FlashLoanError::InsufficientRepayment));
    assert_eq!(pool, snapshot);
}

#[test]
fn repay_without_active_loan_fails() {
    let mut pool = funded_pool();
    let r = flash_repay(&mut pool, 10_000_000_000);
    assert_eq!(r.err(), Some(FlashLoanError::NoActiveLoan));
}

#[test]
fn borrow_then_repay_collects_the_fee() {
    let mut pool = funded_pool();
    flash_borrow(&mut pool, 10_000_000_000).expect("borrow");
    assert!(pool.flash_loan_active);
    assert_eq!(pool.active_borrow_amount, 10_000_000_000);
    assert_eq!(pool.liquidity_balance, 90_000_000_000);

    let fee = flash_repay(&mut pool, 10_000_000_000).expect("repay");
    assert_eq!(fee, 9_000_000);
    assert!(!pool.flash_loan_active);
    assert_eq!(pool.active_borrow_amount, 0);
    assert_eq!(pool.liquidity_balance, 100_009_000_000);
    assert_eq!(pool.total_loans, 1);
    assert_eq!(pool.total_fees_collected, 9_000_000);
}

#[test]
fn validate_repayment_checks_principal_plus_fee() {
    let pool = funded_pool();
    assert_eq!(pool.validate_repayment(10_000_000_000, 10_009_000_000), Ok(()));
    assert_eq!(
        pool.validate_repayment(10_000_000_000, 10_008_999_999),
        Err(ErrorCode::InsufficientRepayment)
    );
}

#[test]
fn deposit_overflow_is_fatal() {
    let mut pool = initialize_pool(1, 9).expect("fee within cap");
    deposit_liquidity(&mut pool, u64::MAX).expect("first deposit fits");
    let r = deposit_liquidity(&mut pool, 1);
    assert_eq!(r.err(), Some(FlashLoanError::ArithmeticOverflow));
    assert_eq!(pool.total_deposited, u64::MAX);
}

#[test]
fn repayment_check_overflow_is_fatal() {
    let pool = initialize_pool(1, 100).expect("fee within cap");
    // principal plus fee no longer fits the word
    let r = pool.validate_repayment(u64::MAX, u64::MAX);
    assert_eq!(r.err(), Some(ErrorCode::ArithmeticOverflow));
}
