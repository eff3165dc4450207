use rebel_protocol::engine::{
    execute_mock_arbitrage, execute_strategy, initialize_vault, sync_vault_liquidity,
    FlashloanBorrow, MockExchangeRate, ProfitConfig,
};
use rebel_protocol::errors::{ExecutionError, ProtocolError};
use rebel_protocol::governance::Treasury;
use rebel_protocol::pool::{deposit_liquidity, initialize_pool, FlashLoanPool};
use rebel_protocol::registry::{
    approve_strategy, create_strategy, initialize_admin, DexType, StrategyAccount, TokenPair,
};

fn approved_strategy() -> StrategyAccount {
    let (mut strategy, _) = create_strategy(
        10,
        1,
        vec![DexType::Raydium, DexType::Orca],
        vec![TokenPair { token_a: 1, token_b: 2 }],
        50,
        100,
        1_000,
    )
    .expect("valid parameters");
    let admin = initialize_admin(99);
    approve_strategy(&mut strategy, &admin, 99, 1_500).expect("approved");
    strategy
}

fn funded_pool() -> FlashLoanPool {
    let mut pool = initialize_pool(1, 9).expect("fee within cap");
    deposit_liquidity(&mut pool, 100_000_000_000).expect("deposit fits");
    pool
}

fn empty_treasury() -> Treasury {
    Treasury { authority: 2, total_received: 0, total_spent: 0, rebel_balance: 0 }
}

#[test]
fn profit_config_must_sum_to_one_whole() {
    let r = ProfitConfig::new(7, 4000, 4000, 1999);
    assert_eq!(r.err(), Some(ExecutionError::InvalidProfitDistribution));
    let r = ProfitConfig::new(7, 4000, 4000, 2001);
    assert_eq!(r.err(), Some(ExecutionError::InvalidProfitDistribution));
    let config = ProfitConfig::new(7, 4000, 4000, 2000).expect("sums to one whole");
    assert_eq!(config.validate(), Ok(()));
    assert_eq!(config.treasury, 7);
}

#[test]
fn distribution_sums_exactly_with_odd_profit() {
    let config = ProfitConfig::new(7, 4000, 4000, 2000).expect("valid");
    let (creator, executor, treasury) = config.calculate_distribution(791).expect("no overflow");
    assert_eq!(creator, 316);
    assert_eq!(executor, 316);
    assert_eq!(treasury, 159);
    assert_eq!(creator + executor + treasury, 791);
}

#[test]
fn distribution_treasury_takes_the_remainder() {
    let config = ProfitConfig::new(7, 3333, 3333, 3334).expect("valid");
    let (creator, executor, treasury) = config.calculate_distribution(1_000).expect("no overflow");
    assert_eq!(creator, 333);
    assert_eq!(executor, 333);
    assert_eq!(treasury, 334);
    assert_eq!(creator + executor + treasury, 1_000);
}

#[test]
fn mock_arbitrage_gains_eight_percent() {
    assert_eq!(execute_mock_arbitrage(10_000_000_000), Ok(10_800_000_000));
    // tiny inputs truncate to no gain and are refused
    assert_eq!(execute_mock_arbitrage(0).err(), Some(ExecutionError::NegativeProfit));
}

#[test]
fn total_repayment_adds_principal_and_fee() {
    let borrow = FlashloanBorrow { amount: 10_000_000_000, fee: 9_000_000 };
    assert_eq!(borrow.total_repayment(), Ok(10_009_000_000));
    let too_big = FlashloanBorrow { amount: u64::MAX, fee: 1 };
    assert_eq!(too_big.total_repayment().err(), Some(ExecutionError::ArithmeticOverflow));
}

#[test]
fn vault_liquidity_sync_holds_back_the_reserve() {
    let (mut vault, _config) = initialize_vault(1, 7);
    sync_vault_liquidity(&mut vault, 5_000_000_000);
    assert_eq!(vault.available_liquidity, 3_000_000_000);
    sync_vault_liquidity(&mut vault, 1_000_000_000);
    assert_eq!(vault.available_liquidity, 0);
}

#[test]
fn end_to_end_execution_distributes_the_net_profit() {
    let mut strategy = approved_strategy();
    let mut pool = funded_pool();
    let (mut vault, profit_config) = initialize_vault(1, 7);
    let mut treasury = empty_treasury();

    // borrow ten units; the mock trade gains eight percent
    let borrow_amount = 10_000_000_000u64;
    let final_amount = execute_mock_arbitrage(borrow_amount).expect("profitable");
    assert_eq!(final_amount, 10_800_000_000);

    let event = execute_strategy(
        &mut strategy,
        &mut pool,
        &mut vault,
        &profit_config,
        &mut treasury,
        55,
        borrow_amount,
        500_000_000,
        final_amount,
        2_000,
    )
    .expect("execution succeeds");

    assert_eq!(event.flashloan_fee, 9_000_000);
    assert_eq!(event.gross_profit, 800_000_000);
    assert_eq!(event.net_profit, 791_000_000);
    assert_eq!(event.creator_share, 316_400_000);
    assert_eq!(event.executor_share, 316_400_000);
    assert_eq!(event.treasury_share, 158_200_000);
    assert_eq!(
        event.creator_share + event.executor_share + event.treasury_share,
        event.net_profit
    );

    // the pool got its fee back and closed the loan
    assert!(!pool.flash_loan_active);
    assert_eq!(pool.liquidity_balance, 100_009_000_000);
    assert_eq!(pool.total_loans, 1);
    assert_eq!(pool.total_fees_collected, 9_000_000);

    // the vault, treasury and strategy all recorded the run
    assert_eq!(vault.total_executions, 1);
    assert_eq!(vault.total_profit_distributed, 791_000_000);
    assert_eq!(vault.total_fees_collected, 9_000_000);
    assert_eq!(treasury.total_received, 158_200_000);
    assert_eq!(strategy.execution_count, 1);
    assert_eq!(strategy.success_count, 1);
    assert_eq!(strategy.total_profit, 791_000_000);
    assert_eq!(strategy.last_execution, 2_000);
}

#[test]
fn execution_of_pending_strategy_fails_without_state_change() {
    let (mut strategy, _) = create_strategy(
        10,
        1,
        vec![DexType::Raydium],
        vec![TokenPair { token_a: 1, token_b: 2 }],
        50,
        100,
        1_000,
    )
    .expect("valid parameters");
    let mut pool = funded_pool();
    let (mut vault, profit_config) = initialize_vault(1, 7);
    let mut treasury = empty_treasury();
    let pool_before = pool;
    let vault_before = vault;

    let r = execute_strategy(
        &mut strategy,
        &mut pool,
        &mut vault,
        &profit_config,
        &mut treasury,
        55,
        10_000_000_000,
        500_000_000,
        10_800_000_000,
        2_000,
    );
    assert_eq!(
        r.err(),
        Some(ProtocolError::Execution(ExecutionError::StrategyNotApproved))
    );
    assert_eq!(pool, pool_before);
    assert_eq!(vault, vault_before);
    assert_eq!(treasury.total_received, 0);
    assert_eq!(strategy.execution_count, 0);
}

#[test]
fn execution_below_minimum_profit_is_refused() {
    let mut strategy = approved_strategy();
    let mut pool = funded_pool();
    let (mut vault, profit_config) = initialize_vault(1, 7);
    let mut treasury = empty_treasury();

    let r = execute_strategy(
        &mut strategy,
        &mut pool,
        &mut vault,
        &profit_config,
        &mut treasury,
        55,
        10_000_000_000,
        791_000_001,
        10_800_000_000,
        2_000,
    );
    assert_eq!(
        r.err(),
        Some(ProtocolError::Execution(ExecutionError::SlippageExceeded))
    );
    assert!(!pool.flash_loan_active);
    assert_eq!(pool.total_loans, 0);
}

#[test]
fn execution_at_a_loss_names_the_loss() {
    let mut strategy = approved_strategy();
    let mut pool = funded_pool();
    let (mut vault, profit_config) = initialize_vault(1, 7);
    let mut treasury = empty_treasury();

    // the trade returned less than was borrowed
    let r = execute_strategy(
        &mut strategy,
        &mut pool,
        &mut vault,
        &profit_config,
        &mut treasury,
        55,
        10_000_000_000,
        0,
        9_000_000_000,
        2_000,
    );
    assert_eq!(
        r.err(),
        Some(ProtocolError::Execution(ExecutionError::ArithmeticUnderflow))
    );

    // the trade covered the principal but not the fee
    let r = execute_strategy(
        &mut strategy,
        &mut pool,
        &mut vault,
        &profit_config,
        &mut treasury,
        55,
        10_000_000_000,
        0,
        10_004_000_000,
        2_000,
    );
    assert_eq!(r.err(), Some(ProtocolError::Execution(ExecutionError::NegativeProfit)));
    assert_eq!(strategy.execution_count, 0);
}

#[test]
fn exchange_rate_output_is_a_truncated_fraction() {
    let inefficient = MockExchangeRate {
        from_token: "USDC",
        to_token: "SOL",
        rate_numerator: 108,
        rate_denominator: 100,
        dex: "DEX_B",
    };
    assert_eq!(inefficient.calculate_output(10_000_000_000), Ok(10_800_000_000));
    let inverse = MockExchangeRate {
        from_token: "USDC",
        to_token: "SOL",
        rate_numerator: 1,
        rate_denominator: 100,
        dex: "DEX_A",
    };
    assert_eq!(inverse.calculate_output(1_050), Ok(10));
    let broken = MockExchangeRate {
        from_token: "SOL",
        to_token: "USDC",
        rate_numerator: 2,
        rate_denominator: 0,
        dex: "DEX_A",
    };
    assert_eq!(
        broken.calculate_output(1).err(),
        Some(rebel_protocol::errors::ExecutionError::ArithmeticOverflow)
    );
}

#[test]
fn distribution_overflow_during_execution_is_fatal() {
    let mut strategy = approved_strategy();
    let mut pool = funded_pool();
    let (mut vault, profit_config) = initialize_vault(1, 7);
    let mut treasury = empty_treasury();
    let pool_before = pool;

    // the trade output is so large that scaling the net profit by basis
    // points no longer fits the word
    let r = execute_strategy(
        &mut strategy,
        &mut pool,
        &mut vault,
        &profit_config,
        &mut treasury,
        55,
        10_000_000_000,
        0,
        u64::MAX,
        2_000,
    );
    assert_eq!(
        r.err(),
        Some(ProtocolError::Execution(ExecutionError::ArithmeticOverflow))
    );
    assert_eq!(pool, pool_before);
    assert_eq!(strategy.execution_count, 0);
}
