//! Execution engine: the atomic borrow-trade-repay-distribute sequence.
//!
//! `execute_strategy` composes the strategy registry, the flash-loan pool,
//! the vault's aggregate accounting, profit distribution and the treasury
//! into one atomic operation: every check runs before any state moves, so
//! a refusal at any step leaves every record exactly as it was. The trade
//! itself is an external collaborator: the engine takes the amount the
//! trade returned and accounts for it.
//!
//! Profit is split three ways by basis points; the treasury takes the
//! rounding remainder, so the three shares always sum exactly to the net
//! profit and no value is created or destroyed.

use vstd::prelude::*;
use vstd::arithmetic::div_mod::{lemma_fundamental_div_mod, lemma_mod_division_less_than_divisor};

use crate::errors::{ExecutionError, FlashLoanError, GovernanceError, ProtocolError, StrategyError};
use crate::governance::{deposit_treasury, Treasury};
use crate::pool::{
    flash_borrow, flash_repay, lemma_fee_bounded, spec_fee, FlashLoanPool, MAX_BORROW_AMOUNT,
    MIN_BORROW_AMOUNT,
};
use crate::registry;
use crate::registry::StrategyAccount;

verus! {

/// Flash-loan fee in basis points.
pub const FLASHLOAN_FEE_BPS: u64 = 9;

/// One whole, in basis points.
pub const BPS_DENOMINATOR: u64 = 10_000;

/// Creator's default share of net profit, in percent.
pub const CREATOR_SHARE_PERCENT: u64 = 40;

/// Executor's default share of net profit, in percent.
pub const EXECUTOR_SHARE_PERCENT: u64 = 40;

/// Treasury's default share of net profit, in percent.
pub const TREASURY_SHARE_PERCENT: u64 = 20;

/// Balance held back in the vault's account and never counted as lendable
/// liquidity.
pub const VAULT_RESERVE: u64 = 2_000_000_000;

/// The vault's aggregate accounting: liquidity available for borrows and
/// running execution statistics.
#[derive(Clone, Copy, Debug, PartialEq, Eq, Structural)]
pub struct ExecutionVault {
    /// Authority that manages the vault.
    pub authority: u64,
    /// Liquidity available for borrows.
    pub available_liquidity: u64,
    /// Amount currently out on loan; zero between executions.
    pub borrowed_amount: u64,
    /// Total fees collected.
    pub total_fees_collected: u64,
    /// Number of successful executions.
    pub total_executions: u64,
    /// Total profit distributed across all executions.
    pub total_profit_distributed: u64,
}

/// One outstanding borrow: the principal and the fee owed on repayment.
#[derive(Clone, Copy, Debug, PartialEq, Eq, Structural)]
pub struct FlashloanBorrow {
    /// Amount borrowed.
    pub amount: u64,
    /// Fee owed on repayment.
    pub fee: u64,
}

impl FlashloanBorrow {
    /// Principal plus fee.
    pub fn total_repayment(&self) -> (r: Result<u64, ExecutionError>)
        ensures
            match r {
                Ok(total) => self.amount + self.fee <= u64::MAX && total == self.amount + self.fee,
                Err(e) => self.amount + self.fee > u64::MAX && e is ArithmeticOverflow,
            },
    {
        match self.amount.checked_add(self.fee) {
            Some(total) => Ok(total),
            None => Err(ExecutionError::ArithmeticOverflow),
        }
    }
}

/// How net profit is split between creator, executor and treasury; the
/// three basis-point shares sum to exactly one whole.
#[derive(Clone, Copy, Debug, PartialEq, Eq, Structural)]
pub struct ProfitConfig {
    /// Treasury identity receiving the treasury share.
    pub treasury: u64,
    /// Creator share in basis points.
    pub creator_share_bps: u64,
    /// Executor share in basis points.
    pub executor_share_bps: u64,
    /// Treasury share in basis points.
    pub treasury_share_bps: u64,
}

/// A share of `net_profit`: `net_profit * bps / 10000`, exact integer
/// division.
pub open spec fn spec_share(net_profit: u64, bps: u64) -> int {
    net_profit * bps / 10000
}

/// Two shares whose basis points sum to at most one whole never exceed
/// the amount they are taken from.
proof fn lemma_two_shares_bounded(net_profit: u64, bps_a: u64, bps_b: u64)
    requires
        bps_a + bps_b <= 10000,
    ensures
        0 <= spec_share(net_profit, bps_a),
        0 <= spec_share(net_profit, bps_b),
        spec_share(net_profit, bps_a) + spec_share(net_profit, bps_b) <= net_profit,
{
    let p = net_profit as int;
    let a = bps_a as int;
    let b = bps_b as int;
    let sa = p * a / 10000;
    let sb = p * b / 10000;
    lemma_fundamental_div_mod(p * a, 10000);
    lemma_fundamental_div_mod(p * b, 10000);
    lemma_mod_division_less_than_divisor(p * a, 10000);
    lemma_mod_division_less_than_divisor(p * b, 10000);
    assert(p * a >= 0 && p * b >= 0) by (nonlinear_arith)
        requires
            p >= 0,
            a >= 0,
            b >= 0,
    ;
    assert(p * a + p * b == p * (a + b)) by (nonlinear_arith);
    assert(p * (a + b) <= p * 10000) by (nonlinear_arith)
        requires
            p >= 0,
            a + b <= 10000,
    ;
    assert(10000 * sa <= p * a);
    assert(10000 * sb <= p * b);
    assert(10000 * (sa + sb) <= p * 10000) by (nonlinear_arith)
        requires
            10000 * sa + 10000 * sb <= p * 10000,
    ;
    assert(sa >= 0 && sb >= 0);
}

impl ProfitConfig {
    /// Well-formedness: the three shares sum to exactly one whole.
    pub open spec fn wf(&self) -> bool {
        self.creator_share_bps + self.executor_share_bps + self.treasury_share_bps == 10000
    }

    /// Build a distribution config; any share split that does not sum to
    /// exactly one whole is refused.
    pub fn new(treasury: u64, creator_share_bps: u64, executor_share_bps: u64,
        treasury_share_bps: u64) -> (r: Result<ProfitConfig, ExecutionError>)
        ensures
            match r {
                Ok(c) => {
                    &&& creator_share_bps + executor_share_bps + treasury_share_bps == 10000
                    &&& c == (ProfitConfig {
                        treasury,
                        creator_share_bps,
                        executor_share_bps,
                        treasury_share_bps,
                    })
                    &&& c.wf()
                },
                Err(e) => {
                    &&& creator_share_bps + executor_share_bps + treasury_share_bps != 10000
                    &&& if creator_share_bps + executor_share_bps > u64::MAX || creator_share_bps
                        + executor_share_bps + treasury_share_bps > u64::MAX {
                        e is ArithmeticOverflow
                    } else {
                        e is InvalidProfitDistribution
                    }
                },
            },
    {
        let config = ProfitConfig { treasury, creator_share_bps, executor_share_bps,
            treasury_share_bps };
        match config.validate() {
            Ok(()) => Ok(config),
            Err(e) => Err(e),
        }
    }

    /// Check that the shares sum to exactly one whole.
    pub fn validate(&self) -> (r: Result<(), ExecutionError>)
        ensures
            match r {
                Ok(()) => self.wf(),
                Err(e) => {
                    &&& !self.wf()
                    &&& if self.creator_share_bps + self.executor_share_bps > u64::MAX
                        || self.creator_share_bps + self.executor_share_bps
                        + self.treasury_share_bps > u64::MAX {
                        e is ArithmeticOverflow
                    } else {
                        e is InvalidProfitDistribution
                    }
                },
            },
    {
        let partial = match self.creator_share_bps.checked_add(self.executor_share_bps) {
            Some(n) => n,
            None => {
                return Err(ExecutionError::ArithmeticOverflow);
            },
        };
        let total = match partial.checked_add(self.treasury_share_bps) {
            Some(n) => n,
            None => {
                return Err(ExecutionError::ArithmeticOverflow);
            },
        };
        if total == 10000 {
            Ok(())
        } else {
            Err(ExecutionError::InvalidProfitDistribution)
        }
    }

    /// Split `total_profit` into creator, executor and treasury shares.
    /// The creator and executor take their basis-point shares rounded
    /// down; the treasury takes the remainder, so the three sum exactly
    /// to `total_profit` and truncation loses nothing.
    pub fn calculate_distribution(&self, total_profit: u64) -> (r: Result<
        (u64, u64, u64),
        ExecutionError,
    >)
        requires
            self.wf(),
        ensures
            match r {
                Ok((creator, executor, treasury)) => {
                    &&& total_profit * self.creator_share_bps <= u64::MAX
                    &&& total_profit * self.executor_share_bps <= u64::MAX
                    &&& creator == spec_share(total_profit, self.creator_share_bps)
                    &&& executor == spec_share(total_profit, self.executor_share_bps)
                    &&& treasury == total_profit - creator - executor
                    &&& creator + executor + treasury == total_profit
                },
                Err(e) => {
                    &&& (total_profit * self.creator_share_bps > u64::MAX || total_profit
                        * self.executor_share_bps > u64::MAX)
                    &&& e is ArithmeticOverflow
                },
            },
    {
        let creator_wide = match total_profit.checked_mul(self.creator_share_bps) {
            Some(n) => n,
            None => {
                return Err(ExecutionError::ArithmeticOverflow);
            },
        };
        let creator_share = creator_wide / 10000;
        let executor_wide = match total_profit.checked_mul(self.executor_share_bps) {
            Some(n) => n,
            None => {
                return Err(ExecutionError::ArithmeticOverflow);
            },
        };
        let executor_share = executor_wide / 10000;
        proof {
            lemma_two_shares_bounded(total_profit, self.creator_share_bps,
                self.executor_share_bps);
        }
        let treasury_share = (total_profit - creator_share) - executor_share;
        Ok((creator_share, executor_share, treasury_share))
    }
}

/// Set up the vault with nothing lent and the default 40/40/20 profit
/// split, which is a valid distribution.
pub fn initialize_vault(authority: u64, treasury: u64) -> (r: (ExecutionVault, ProfitConfig))
    ensures
        r.0 == (ExecutionVault {
            authority,
            available_liquidity: 0,
            borrowed_amount: 0,
            total_fees_collected: 0,
            total_executions: 0,
            total_profit_distributed: 0,
        }),
        r.1 == (ProfitConfig {
            treasury,
            creator_share_bps: (CREATOR_SHARE_PERCENT * 100) as u64,
            executor_share_bps: (EXECUTOR_SHARE_PERCENT * 100) as u64,
            treasury_share_bps: (TREASURY_SHARE_PERCENT * 100) as u64,
        }),
        r.1.wf(),
{
    let vault = ExecutionVault {
        authority,
        available_liquidity: 0,
        borrowed_amount: 0,
        total_fees_collected: 0,
        total_executions: 0,
        total_profit_distributed: 0,
    };
    let profit_config = ProfitConfig {
        treasury,
        creator_share_bps: CREATOR_SHARE_PERCENT * 100,
        executor_share_bps: EXECUTOR_SHARE_PERCENT * 100,
        treasury_share_bps: TREASURY_SHARE_PERCENT * 100,
    };
    (vault, profit_config)
}

/// Refresh the vault's lendable liquidity from its account balance, less
/// the held-back reserve.
pub fn sync_vault_liquidity(vault: &mut ExecutionVault, vault_balance: u64)
    ensures
        *final(vault) == (ExecutionVault {
            available_liquidity: if vault_balance >= VAULT_RESERVE {
                (vault_balance - VAULT_RESERVE) as u64
            } else {
                0
            },
            ..*old(vault)
        }),
{
    let available = if vault_balance >= VAULT_RESERVE {
        vault_balance - VAULT_RESERVE
    } else {
        0
    };
    vault.available_liquidity = available;
}

/// One quoted exchange rate of the demonstration venues, as a plain
/// fraction.
#[derive(Clone, Copy, Debug)]
pub struct MockExchangeRate {
    /// Token given.
    pub from_token: &'static str,
    /// Token received.
    pub to_token: &'static str,
    /// Numerator of the rate.
    pub rate_numerator: u64,
    /// Denominator of the rate.
    pub rate_denominator: u64,
    /// Venue quoting the rate.
    pub dex: &'static str,
}

impl MockExchangeRate {
    /// The output a swap at this rate yields for an input:
    /// `input * numerator / denominator`, truncated.
    pub fn calculate_output(&self, input_amount: u64) -> (r: Result<u64, ExecutionError>)
        ensures
            match r {
                Ok(output) => {
                    &&& input_amount * self.rate_numerator <= u64::MAX
                    &&& self.rate_denominator != 0
                    &&& output == input_amount * self.rate_numerator / (self.rate_denominator as int)
                },
                Err(e) => {
                    &&& (input_amount * self.rate_numerator > u64::MAX || self.rate_denominator
                        == 0)
                    &&& e is ArithmeticOverflow
                },
            },
    {
        let wide = match input_amount.checked_mul(self.rate_numerator) {
            Some(n) => n,
            None => {
                return Err(ExecutionError::ArithmeticOverflow);
            },
        };
        match wide.checked_div(self.rate_denominator) {
            Some(output) => Ok(output),
            None => Err(ExecutionError::ArithmeticOverflow),
        }
    }
}

/// Stand-in for the external trade routine: turns the input into an eight
/// percent larger output, and insists the trade gained something.
pub fn execute_mock_arbitrage(input_amount: u64) -> (r: Result<u64, ExecutionError>)
    ensures
        match r {
            Ok(output) => {
                &&& input_amount * 108 <= u64::MAX
                &&& output == input_amount * 108 / 100
                &&& output > input_amount
            },
            Err(e) => {
                if input_amount * 108 > u64::MAX {
                    e is ArithmeticOverflow
                } else {
                    input_amount * 108 / 100 <= input_amount && e is NegativeProfit
                }
            },
        },
{
    let wide = match input_amount.checked_mul(108) {
        Some(n) => n,
        None => {
            return Err(ExecutionError::ArithmeticOverflow);
        },
    };
    let output = wide / 100;
    if output > input_amount {
        Ok(output)
    } else {
        Err(ExecutionError::NegativeProfit)
    }
}

/// The canonical execution event, carrying every computed quantity.
#[derive(Clone, Copy, Debug, PartialEq, Eq, Structural)]
pub struct StrategyExecuted {
    /// Creator of the executed strategy.
    pub strategy_creator: u64,
    /// Id of the executed strategy.
    pub strategy_id: u64,
    /// Who triggered the execution.
    pub executor: u64,
    /// Principal borrowed for the trade.
    pub borrowed_amount: u64,
    /// Fee owed to the pool.
    pub flashloan_fee: u64,
    /// Trade output minus principal.
    pub gross_profit: u64,
    /// Gross profit minus the fee.
    pub net_profit: u64,
    /// Creator's share of the net profit.
    pub creator_share: u64,
    /// Executor's share of the net profit.
    pub executor_share: u64,
    /// Treasury's share of the net profit.
    pub treasury_share: u64,
    /// When the execution was recorded.
    pub timestamp: i64,
}

/// What `execute_strategy` refuses first, in the order the steps run,
/// or `None` when the whole sequence goes through.
pub open spec fn execute_strategy_check(
    strategy: StrategyAccount,
    pool: FlashLoanPool,
    vault: ExecutionVault,
    profit_config: ProfitConfig,
    treasury: Treasury,
    borrow_amount: u64,
    min_profit: u64,
    final_amount: u64,
) -> Option<ProtocolError> {
    let fee = spec_fee(borrow_amount, pool.fee_bps);
    let gross = final_amount - borrow_amount;
    let net = gross - fee;
    let creator = spec_share((net as u64), profit_config.creator_share_bps);
    let executor = spec_share((net as u64), profit_config.executor_share_bps);
    let treasury_share = net - creator - executor;
    if !strategy.spec_is_executable() {
        Some(ProtocolError::Execution(ExecutionError::StrategyNotApproved))
    } else if borrow_amount < MIN_BORROW_AMOUNT {
        Some(ProtocolError::FlashLoan(FlashLoanError::BorrowAmountTooLow))
    } else if borrow_amount > MAX_BORROW_AMOUNT {
        Some(ProtocolError::FlashLoan(FlashLoanError::BorrowAmountTooHigh))
    } else if pool.flash_loan_active {
        Some(ProtocolError::FlashLoan(FlashLoanError::FlashLoanActive))
    } else if pool.liquidity_balance < borrow_amount {
        Some(ProtocolError::FlashLoan(FlashLoanError::InsufficientLiquidity))
    } else if pool.liquidity_balance + fee > u64::MAX || pool.total_loans + 1 > u64::MAX
        || pool.total_fees_collected + fee > u64::MAX {
        Some(ProtocolError::FlashLoan(FlashLoanError::ArithmeticOverflow))
    } else if final_amount < borrow_amount {
        Some(ProtocolError::Execution(ExecutionError::ArithmeticUnderflow))
    } else if gross < fee {
        Some(ProtocolError::Execution(ExecutionError::NegativeProfit))
    } else if net < min_profit {
        Some(ProtocolError::Execution(ExecutionError::SlippageExceeded))
    } else if net * profit_config.creator_share_bps > u64::MAX || net
        * profit_config.executor_share_bps > u64::MAX {
        Some(ProtocolError::Execution(ExecutionError::ArithmeticOverflow))
    } else if vault.total_executions + 1 > u64::MAX || vault.total_profit_distributed + net
        > u64::MAX || vault.total_fees_collected + fee > u64::MAX {
        Some(ProtocolError::Execution(ExecutionError::ArithmeticOverflow))
    } else if treasury.total_received + treasury_share > u64::MAX {
        Some(ProtocolError::Governance(GovernanceError::ArithmeticOverflow))
    } else if strategy.execution_count + 1 > u64::MAX || strategy.success_count + 1 > u64::MAX
        || strategy.total_profit + net > u64::MAX {
        Some(ProtocolError::Strategy(StrategyError::ArithmeticOverflow))
    } else {
        None
    }
}

/// Execute an approved strategy as one atomic operation: borrow from the
/// pool, account for the external trade's output, repay principal plus
/// fee, take the net profit (which must reach the caller's minimum),
/// split it between creator, executor and treasury, record the treasury's
/// share, update the vault's statistics and the strategy's metrics, and
/// return the execution event. Every check runs before any record is
/// touched: on any refusal all five records are left exactly as they
/// were.
pub fn execute_strategy(
    strategy: &mut StrategyAccount,
    pool: &mut FlashLoanPool,
    vault: &mut ExecutionVault,
    profit_config: &ProfitConfig,
    treasury: &mut Treasury,
    executor: u64,
    borrow_amount: u64,
    min_profit: u64,
    final_amount: u64,
    now: i64,
) -> (r: Result<StrategyExecuted, ProtocolError>)
    requires
        profit_config.wf(),
        old(pool).wf(),
        old(strategy).success_count <= old(strategy).execution_count,
    ensures
        match r {
            Ok(ev) => {
                &&& execute_strategy_check(
                    *old(strategy),
                    *old(pool),
                    *old(vault),
                    *profit_config,
                    *old(treasury),
                    borrow_amount,
                    min_profit,
                    final_amount,
                ) is None
                &&& ev.strategy_creator == old(strategy).creator
                &&& ev.strategy_id == old(strategy).strategy_id
                &&& ev.executor == executor
                &&& ev.timestamp == now
                &&& ev.borrowed_amount == borrow_amount
                &&& ev.flashloan_fee == spec_fee(borrow_amount, old(pool).fee_bps)
                &&& ev.gross_profit == final_amount - borrow_amount
                &&& ev.net_profit == ev.gross_profit - ev.flashloan_fee
                &&& ev.net_profit >= min_profit
                &&& ev.creator_share == spec_share(ev.net_profit, profit_config.creator_share_bps)
                &&& ev.executor_share == spec_share(
                    ev.net_profit,
                    profit_config.executor_share_bps,
                )
                &&& ev.creator_share + ev.executor_share + ev.treasury_share == ev.net_profit
                &&& *final(pool) == (FlashLoanPool {
                    liquidity_balance: (old(pool).liquidity_balance + ev.flashloan_fee) as u64,
                    total_loans: (old(pool).total_loans + 1) as u64,
                    total_fees_collected: (old(pool).total_fees_collected
                        + ev.flashloan_fee) as u64,
                    flash_loan_active: false,
                    active_borrow_amount: 0,
                    ..*old(pool)
                })
                &&& *final(vault) == (ExecutionVault {
                    total_executions: (old(vault).total_executions + 1) as u64,
                    total_profit_distributed: (old(vault).total_profit_distributed
                        + ev.net_profit) as u64,
                    total_fees_collected: (old(vault).total_fees_collected
                        + ev.flashloan_fee) as u64,
                    ..*old(vault)
                })
                &&& *final(treasury) == (Treasury {
                    total_received: (old(treasury).total_received + ev.treasury_share) as u64,
                    ..*old(treasury)
                })
                &&& *final(strategy) == (StrategyAccount {
                    execution_count: (old(strategy).execution_count + 1) as u64,
                    success_count: (old(strategy).success_count + 1) as u64,
                    total_profit: (old(strategy).total_profit + ev.net_profit) as u64,
                    last_execution: now,
                    ..*old(strategy)
                })
            },
            Err(e) => {
                &&& *final(strategy) == *old(strategy)
                &&& *final(pool) == *old(pool)
                &&& *final(vault) == *old(vault)
                &&& *final(treasury) == *old(treasury)
                &&& Some(e) == execute_strategy_check(
                    *old(strategy),
                    *old(pool),
                    *old(vault),
                    *profit_config,
                    *old(treasury),
                    borrow_amount,
                    min_profit,
                    final_amount,
                )
            },
        },
        final(pool).wf(),
        final(strategy).success_count <= final(strategy).execution_count,
        old(strategy).wf() ==> final(strategy).wf(),
{
    if !strategy.is_executable() {
        return Err(ProtocolError::Execution(ExecutionError::StrategyNotApproved));
    }
    if borrow_amount < MIN_BORROW_AMOUNT {
        return Err(ProtocolError::FlashLoan(FlashLoanError::BorrowAmountTooLow));
    }
    if borrow_amount > MAX_BORROW_AMOUNT {
        return Err(ProtocolError::FlashLoan(FlashLoanError::BorrowAmountTooHigh));
    }
    if pool.flash_loan_active {
        return Err(ProtocolError::FlashLoan(FlashLoanError::FlashLoanActive));
    }
    if pool.liquidity_balance < borrow_amount {
        return Err(ProtocolError::FlashLoan(FlashLoanError::InsufficientLiquidity));
    }
    let flashloan_fee = match pool.calculate_fee(borrow_amount) {
        Ok(f) => f,
        Err(_) => {
            return Err(ProtocolError::FlashLoan(FlashLoanError::ArithmeticOverflow));
        },
    };
    proof {
        lemma_fee_bounded(borrow_amount, pool.fee_bps);
    }
    if pool.liquidity_balance.checked_add(flashloan_fee).is_none() {
        return Err(ProtocolError::FlashLoan(FlashLoanError::ArithmeticOverflow));
    }
    if pool.total_loans.checked_add(1).is_none() {
        return Err(ProtocolError::FlashLoan(FlashLoanError::ArithmeticOverflow));
    }
    if pool.total_fees_collected.checked_add(flashloan_fee).is_none() {
        return Err(ProtocolError::FlashLoan(FlashLoanError::ArithmeticOverflow));
    }
    let gross_profit = match final_amount.checked_sub(borrow_amount) {
        Some(n) => n,
        None => {
            return Err(ProtocolError::Execution(ExecutionError::ArithmeticUnderflow));
        },
    };
    let net_profit = match gross_profit.checked_sub(flashloan_fee) {
        Some(n) => n,
        None => {
            return Err(ProtocolError::Execution(ExecutionError::NegativeProfit));
        },
    };
    if net_profit < min_profit {
        return Err(ProtocolError::Execution(ExecutionError::SlippageExceeded));
    }
    let (creator_share, executor_share, treasury_share) = match profit_config.calculate_distribution(
        net_profit,
    ) {
        Ok(shares) => shares,
        Err(e) => {
            return Err(ProtocolError::Execution(e));
        },
    };
    let new_total_executions = match vault.total_executions.checked_add(1) {
        Some(n) => n,
        None => {
            return Err(ProtocolError::Execution(ExecutionError::ArithmeticOverflow));
        },
    };
    let new_profit_distributed = match vault.total_profit_distributed.checked_add(net_profit) {
        Some(n) => n,
        None => {
            return Err(ProtocolError::Execution(ExecutionError::ArithmeticOverflow));
        },
    };
    let new_vault_fees = match vault.total_fees_collected.checked_add(flashloan_fee) {
        Some(n) => n,
        None => {
            return Err(ProtocolError::Execution(ExecutionError::ArithmeticOverflow));
        },
    };
    if treasury.total_received.checked_add(treasury_share).is_none() {
        return Err(ProtocolError::Governance(
            GovernanceError::ArithmeticOverflow,
        ));
    }
    if strategy.execution_count.checked_add(1).is_none() {
        return Err(ProtocolError::Strategy(StrategyError::ArithmeticOverflow));
    }
    if strategy.success_count.checked_add(1).is_none() {
        return Err(ProtocolError::Strategy(StrategyError::ArithmeticOverflow));
    }
    if strategy.total_profit.checked_add(net_profit).is_none() {
        return Err(ProtocolError::Strategy(StrategyError::ArithmeticOverflow));
    }
    // Every check has passed; from here on no step can refuse, and the
    // whole sequence of mutations goes through together.
    match flash_borrow(pool, borrow_amount) {
        Ok(()) => (),
        Err(e) => {
            return Err(ProtocolError::FlashLoan(e));
        },
    }
    match flash_repay(pool, borrow_amount) {
        Ok(_) => (),
        Err(e) => {
            return Err(ProtocolError::FlashLoan(e));
        },
    }
    vault.total_executions = new_total_executions;
    vault.total_profit_distributed = new_profit_distributed;
    vault.total_fees_collected = new_vault_fees;
    let depositor = vault.authority;
    match deposit_treasury(treasury, depositor, treasury_share) {
        Ok(_) => (),
        Err(e) => {
            return Err(ProtocolError::Governance(e));
        },
    }
    match registry::update_metrics(strategy, executor, net_profit, true, now) {
        Ok(_) => (),
        Err(e) => {
            return Err(ProtocolError::Strategy(e));
        },
    }
    Ok(StrategyExecuted {
        strategy_creator: strategy.creator,
        strategy_id: strategy.strategy_id,
        executor,
        borrowed_amount: borrow_amount,
        flashloan_fee,
        gross_profit,
        net_profit,
        creator_share,
        executor_share,
        treasury_share,
        timestamp: now,
    })
}

} // verus!
