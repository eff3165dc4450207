//! Flash-loan pool: pooled liquidity accounting with a reentrancy guard.
//!
//! The pool lends its liquidity for the duration of one atomic operation:
//! `flash_borrow` moves the amount out and raises the active-loan flag, and
//! `flash_repay` takes the amount plus fee back and clears it. While the
//! flag is raised a second borrow is refused, so at most one loan is ever
//! in flight. The balance of the pool's liquidity account is carried here
//! as a plain field, moved only by deposit, borrow and repay.

use vstd::prelude::*;
use vstd::arithmetic::div_mod::{lemma_div_is_ordered, lemma_div_multiples_vanish};

use crate::errors::{ErrorCode, FlashLoanError};

verus! {

/// Default flash-loan fee in basis points.
pub const DEFAULT_FEE_BPS: u16 = 9;

/// Maximum fee in basis points.
pub const MAX_FEE_BPS: u16 = 100;

/// Minimum borrow amount, to keep dust out.
pub const MIN_BORROW_AMOUNT: u64 = 10_000_000;

/// Maximum borrow amount, to bound the risk of one loan.
pub const MAX_BORROW_AMOUNT: u64 = 1_000_000_000_000;

/// Flash-loan pool state.
#[derive(Clone, Copy, Debug, PartialEq, Eq, Structural)]
pub struct FlashLoanPool {
    /// Pool authority.
    pub authority: u64,
    /// Balance of the pool's liquidity account.
    pub liquidity_balance: u64,
    /// Fee in basis points; at most `MAX_FEE_BPS`.
    pub fee_bps: u16,
    /// Total liquidity ever deposited.
    pub total_deposited: u64,
    /// Number of completed flash loans.
    pub total_loans: u64,
    /// Total fees collected.
    pub total_fees_collected: u64,
    /// Whether a flash loan is currently active (reentrancy guard).
    pub flash_loan_active: bool,
    /// Amount currently borrowed; zero when no loan is active.
    pub active_borrow_amount: u64,
}

/// The fee owed on a borrow: `amount * fee_bps / 10000`, exact integer
/// division.
pub open spec fn spec_fee(amount: u64, fee_bps: u16) -> int {
    amount * fee_bps / 10000
}

/// The fee never exceeds the amount it is charged on.
pub proof fn lemma_fee_bounded(amount: u64, fee_bps: u16)
    requires
        fee_bps <= 10000,
    ensures
        0 <= spec_fee(amount, fee_bps) <= amount,
{
    let a = amount as int;
    let f = fee_bps as int;
    assert(a * f <= a * 10000) by (nonlinear_arith)
        requires
            0 <= a,
            f <= 10000,
    ;
    assert(a * f >= 0) by (nonlinear_arith)
        requires
            0 <= a,
            0 <= f,
    ;
    lemma_div_is_ordered(a * f, a * 10000, 10000);
    lemma_div_multiples_vanish(a, 10000);
    assert(a * 10000 == 10000 * a) by (nonlinear_arith);
}

impl FlashLoanPool {
    /// Well-formedness: the fee is capped, and the guard and the recorded
    /// borrow move together.
    pub open spec fn wf(&self) -> bool {
        &&& self.fee_bps <= MAX_FEE_BPS
        &&& (!self.flash_loan_active ==> self.active_borrow_amount == 0)
        &&& (self.flash_loan_active ==> MIN_BORROW_AMOUNT <= self.active_borrow_amount
            <= MAX_BORROW_AMOUNT)
    }

    /// Fee for a given borrow amount, computed in widened arithmetic so it
    /// cannot overflow.
    pub fn calculate_fee(&self, amount: u64) -> (r: Result<u64, ErrorCode>)
        requires
            self.fee_bps <= MAX_FEE_BPS,
        ensures
            match r {
                Ok(fee) => fee == spec_fee(amount, self.fee_bps),
                Err(_) => false,
            },
    {
        proof {
            assert((amount as int) * (self.fee_bps as int) <= u64::MAX * 100) by (nonlinear_arith)
                requires
                    amount <= u64::MAX,
                    self.fee_bps <= 100,
            ;
            lemma_fee_bounded(amount, self.fee_bps);
        }
        let wide: u128 = (amount as u128) * (self.fee_bps as u128);
        let quotient: u128 = wide / 10000;
        Ok(quotient as u64)
    }

    /// Check that a repayment covers principal plus fee.
    pub fn validate_repayment(&self, amount_borrowed: u64, amount_repaid: u64) -> (r: Result<
        (),
        ErrorCode,
    >)
        requires
            self.fee_bps <= MAX_FEE_BPS,
        ensures
            match r {
                Ok(()) => {
                    &&& amount_borrowed + spec_fee(amount_borrowed, self.fee_bps) <= u64::MAX
                    &&& amount_repaid >= amount_borrowed + spec_fee(amount_borrowed, self.fee_bps)
                },
                Err(e) => {
                    if amount_borrowed + spec_fee(amount_borrowed, self.fee_bps) > u64::MAX {
                        e is ArithmeticOverflow
                    } else {
                        amount_repaid < amount_borrowed + spec_fee(amount_borrowed, self.fee_bps)
                            && e is InsufficientRepayment
                    }
                },
            },
    {
        let fee = match self.calculate_fee(amount_borrowed) {
            Ok(f) => f,
            Err(e) => {
                return Err(e);
            },
        };
        let required = match amount_borrowed.checked_add(fee) {
            Some(n) => n,
            None => {
                return Err(ErrorCode::ArithmeticOverflow);
            },
        };
        if amount_repaid >= required {
            Ok(())
        } else {
            Err(ErrorCode::InsufficientRepayment)
        }
    }
}

/// Create a pool with the given fee and nothing deposited, no loan active.
pub fn initialize_pool(authority: u64, fee_bps: u16) -> (r: Result<FlashLoanPool, FlashLoanError>)
    ensures
        match r {
            Ok(p) => {
                &&& fee_bps <= MAX_FEE_BPS
                &&& p == (FlashLoanPool {
                    authority,
                    liquidity_balance: 0,
                    fee_bps,
                    total_deposited: 0,
                    total_loans: 0,
                    total_fees_collected: 0,
                    flash_loan_active: false,
                    active_borrow_amount: 0,
                })
                &&& p.wf()
            },
            Err(e) => fee_bps > MAX_FEE_BPS && e is FeeTooHigh,
        },
{
    if fee_bps > MAX_FEE_BPS {
        return Err(FlashLoanError::FeeTooHigh);
    }
    Ok(FlashLoanPool {
        authority,
        liquidity_balance: 0,
        fee_bps,
        total_deposited: 0,
        total_loans: 0,
        total_fees_collected: 0,
        flash_loan_active: false,
        active_borrow_amount: 0,
    })
}

/// Move `amount` units of the liquidity asset into the pool. Overflow of
/// either running total aborts with no effect.
pub fn deposit_liquidity(pool: &mut FlashLoanPool, amount: u64) -> (r: Result<(), FlashLoanError>)
    ensures
        match r {
            Ok(()) => {
                &&& old(pool).total_deposited + amount <= u64::MAX
                &&& old(pool).liquidity_balance + amount <= u64::MAX
                &&& *final(pool) == (FlashLoanPool {
                    total_deposited: (old(pool).total_deposited + amount) as u64,
                    liquidity_balance: (old(pool).liquidity_balance + amount) as u64,
                    ..*old(pool)
                })
            },
            Err(e) => {
                &&& *final(pool) == *old(pool)
                &&& (old(pool).total_deposited + amount > u64::MAX || old(pool).liquidity_balance
                    + amount > u64::MAX)
                &&& e is ArithmeticOverflow
            },
        },
        old(pool).wf() ==> final(pool).wf(),
{
    let new_deposited = match pool.total_deposited.checked_add(amount) {
        Some(n) => n,
        None => {
            return Err(FlashLoanError::ArithmeticOverflow);
        },
    };
    let new_balance = match pool.liquidity_balance.checked_add(amount) {
        Some(n) => n,
        None => {
            return Err(FlashLoanError::ArithmeticOverflow);
        },
    };
    pool.total_deposited = new_deposited;
    pool.liquidity_balance = new_balance;
    Ok(())
}

/// What `flash_borrow` refuses first, in checking order, or `None` when
/// the borrow may proceed.
pub open spec fn flash_borrow_check(pool: FlashLoanPool, amount: u64) -> Option<FlashLoanError> {
    if amount < MIN_BORROW_AMOUNT {
        Some(FlashLoanError::BorrowAmountTooLow)
    } else if amount > MAX_BORROW_AMOUNT {
        Some(FlashLoanError::BorrowAmountTooHigh)
    } else if pool.flash_loan_active {
        Some(FlashLoanError::FlashLoanActive)
    } else if pool.liquidity_balance < amount {
        Some(FlashLoanError::InsufficientLiquidity)
    } else {
        None
    }
}

/// Borrow `amount` from the pool: the amount leaves the pool's balance,
/// the guard is raised and the borrow recorded. Refused while another loan
/// is active, so a pool services one loan at a time.
pub fn flash_borrow(pool: &mut FlashLoanPool, amount: u64) -> (r: Result<(), FlashLoanError>)
    ensures
        match r {
            Ok(()) => {
                &&& flash_borrow_check(*old(pool), amount) is None
                &&& *final(pool) == (FlashLoanPool {
                    flash_loan_active: true,
                    active_borrow_amount: amount,
                    liquidity_balance: (old(pool).liquidity_balance - amount) as u64,
                    ..*old(pool)
                })
            },
            Err(e) => {
                &&& *final(pool) == *old(pool)
                &&& Some(e) == flash_borrow_check(*old(pool), amount)
            },
        },
        old(pool).wf() ==> final(pool).wf(),
{
    if amount < MIN_BORROW_AMOUNT {
        return Err(FlashLoanError::BorrowAmountTooLow);
    }
    if amount > MAX_BORROW_AMOUNT {
        return Err(FlashLoanError::BorrowAmountTooHigh);
    }
    if pool.flash_loan_active {
        return Err(FlashLoanError::FlashLoanActive);
    }
    if pool.liquidity_balance < amount {
        return Err(FlashLoanError::InsufficientLiquidity);
    }
    pool.flash_loan_active = true;
    pool.active_borrow_amount = amount;
    pool.liquidity_balance = pool.liquidity_balance - amount;
    Ok(())
}

/// What `flash_repay` refuses first, in checking order, or `None` when
/// the repayment may proceed.
pub open spec fn flash_repay_check(pool: FlashLoanPool, amount_borrowed: u64) -> Option<
    FlashLoanError,
> {
    let fee = spec_fee(amount_borrowed, pool.fee_bps);
    if !pool.flash_loan_active {
        Some(FlashLoanError::NoActiveLoan)
    } else if pool.active_borrow_amount != amount_borrowed {
        Some(FlashLoanError::InsufficientRepayment)
    } else if amount_borrowed + fee > u64::MAX {
        Some(FlashLoanError::ArithmeticOverflow)
    } else if pool.liquidity_balance + amount_borrowed + fee > u64::MAX {
        Some(FlashLoanError::ArithmeticOverflow)
    } else if pool.total_loans + 1 > u64::MAX {
        Some(FlashLoanError::ArithmeticOverflow)
    } else if pool.total_fees_collected + fee > u64::MAX {
        Some(FlashLoanError::ArithmeticOverflow)
    } else {
        None
    }
}

/// Repay the active loan: principal plus fee return to the pool's balance,
/// the guard is cleared and the loan and fee totals grow. The amount must
/// match the recorded borrow exactly. Returns the fee taken.
pub fn flash_repay(pool: &mut FlashLoanPool, amount_borrowed: u64) -> (r: Result<
    u64,
    FlashLoanError,
>)
    requires
        old(pool).fee_bps <= MAX_FEE_BPS,
    ensures
        match r {
            Ok(fee) => {
                &&& flash_repay_check(*old(pool), amount_borrowed) is None
                &&& fee == spec_fee(amount_borrowed, old(pool).fee_bps)
                &&& *final(pool) == (FlashLoanPool {
                    flash_loan_active: false,
                    active_borrow_amount: 0,
                    liquidity_balance: (old(pool).liquidity_balance + amount_borrowed + fee) as u64,
                    total_loans: (old(pool).total_loans + 1) as u64,
                    total_fees_collected: (old(pool).total_fees_collected + fee) as u64,
                    ..*old(pool)
                })
            },
            Err(e) => {
                &&& *final(pool) == *old(pool)
                &&& Some(e) == flash_repay_check(*old(pool), amount_borrowed)
            },
        },
        old(pool).wf() ==> final(pool).wf(),
{
    if !pool.flash_loan_active {
        return Err(FlashLoanError::NoActiveLoan);
    }
    if pool.active_borrow_amount != amount_borrowed {
        return Err(FlashLoanError::InsufficientRepayment);
    }
    let fee = match pool.calculate_fee(amount_borrowed) {
        Ok(f) => f,
        Err(_) => {
            return Err(FlashLoanError::ArithmeticOverflow);
        },
    };
    let repayment = match amount_borrowed.checked_add(fee) {
        Some(n) => n,
        None => {
            return Err(FlashLoanError::ArithmeticOverflow);
        },
    };
    let new_balance = match pool.liquidity_balance.checked_add(repayment) {
        Some(n) => n,
        None => {
            return Err(FlashLoanError::ArithmeticOverflow);
        },
    };
    let new_loans = match pool.total_loans.checked_add(1) {
        Some(n) => n,
        None => {
            return Err(FlashLoanError::ArithmeticOverflow);
        },
    };
    let new_fees = match pool.total_fees_collected.checked_add(fee) {
        Some(n) => n,
        None => {
            return Err(FlashLoanError::ArithmeticOverflow);
        },
    };
    pool.flash_loan_active = false;
    pool.active_borrow_amount = 0;
    pool.liquidity_balance = new_balance;
    pool.total_loans = new_loans;
    pool.total_fees_collected = new_fees;
    Ok(fee)
}


/// While a loan is in flight, any second borrow in bounds is refused for
/// exactly that reason; with `flash_borrow`'s contract, which leaves the
/// pool untouched on every refusal, no reentrant borrow can move state.
pub proof fn lemma_reentrant_borrow_refused(pool: FlashLoanPool, amount: u64)
    requires
        pool.flash_loan_active,
        MIN_BORROW_AMOUNT <= amount <= MAX_BORROW_AMOUNT,
    ensures
        flash_borrow_check(pool, amount) == Some(FlashLoanError::FlashLoanActive),
{
}

/// Repaying any amount other than the recorded borrow is refused, and a
/// pool with no loan in flight accepts no repayment at all.
pub proof fn lemma_mismatched_repayment_refused(pool: FlashLoanPool, amount_borrowed: u64)
    requires
        pool.active_borrow_amount != amount_borrowed,
    ensures
        flash_repay_check(pool, amount_borrowed) == Some(
            if pool.flash_loan_active {
                FlashLoanError::InsufficientRepayment
            } else {
                FlashLoanError::NoActiveLoan
            },
        ),
{
}
} // verus!
