use rebel_protocol::errors::StrategyError;
use rebel_protocol::registry::{
    approve_strategy, create_strategy, get_strategy_stats, initialize_admin, reject_strategy,
    update_metrics, DexType, StrategyAccount, StrategyStatus, TokenPair,
};

fn one_dex() -> Vec<DexType> {
    vec![DexType::Raydium]
}

fn one_pair() -> Vec<TokenPair> {
    vec![TokenPair { token_a: 1, token_b: 2 }]
}

fn pending_strategy() -> StrategyAccount {
    let (strategy, _event) = create_strategy(10, 1, one_dex(), one_pair(), 50, 100, 1_000)
        .expect("valid parameters");
    strategy
}

#[test]
fn create_starts_pending_with_zero_counters() {
    let (strategy, event) = create_strategy(10, 1, one_dex(), one_pair(), 50, 100, 1_000)
        .expect("valid parameters");
    assert_eq!(strategy.status, StrategyStatus::Pending);
    assert_eq!(strategy.total_profit, 0);
    assert_eq!(strategy.execution_count, 0);
    assert_eq!(strategy.success_count, 0);
    assert_eq!(strategy.last_execution, 0);
    assert_eq!(event.strategy_id, 1);
    assert_eq!(event.creator, 10);
    assert_eq!(event.timestamp, 1_000);
}

#[test]
fn create_rejects_low_profit_threshold() {
    let r = create_strategy(10, 1, one_dex(), one_pair(), 5, 100, 1_000);
    assert_eq!(r.err(), Some(StrategyError::ProfitThresholdTooLow));
}

#[test]
fn create_rejects_high_slippage() {
    let r = create_strategy(10, 1, one_dex(), one_pair(), 50, 600, 1_000);
    assert_eq!(r.err(), Some(StrategyError::SlippageTooHigh));
}

#[test]
fn create_rejects_identical_token_pair() {
    let pairs = vec![TokenPair { token_a: 3, token_b: 3 }];
    let r = create_strategy(10, 1, one_dex(), pairs, 50, 100, 1_000);
    assert_eq!(r.err(), Some(StrategyError::InvalidTokenPair));
}

#[test]
fn create_rejects_empty_or_oversized_sets() {
    let r = create_strategy(10, 1, vec![], one_pair(), 50, 100, 1_000);
    assert_eq!(r.err(), Some(StrategyError::NoDexSpecified));
    let r = create_strategy(10, 1, one_dex(), vec![], 50, 100, 1_000);
    assert_eq!(r.err(), Some(StrategyError::NoTokenPairSpecified));
    let six = vec![
        DexType::Raydium,
        DexType::Orca,
        DexType::Meteora,
        DexType::Phoenix,
        DexType::Lifinity,
        DexType::Raydium,
    ];
    let r = create_strategy(10, 1, six, one_pair(), 50, 100, 1_000);
    assert_eq!(r.err(), Some(StrategyError::NoDexSpecified));
    let four = vec![
        TokenPair { token_a: 1, token_b: 2 },
        TokenPair { token_a: 2, token_b: 3 },
        TokenPair { token_a: 3, token_b: 4 },
        TokenPair { token_a: 4, token_b: 5 },
    ];
    let r = create_strategy(10, 1, one_dex(), four, 50, 100, 1_000);
    assert_eq!(r.err(), Some(StrategyError::NoTokenPairSpecified));
}

#[test]
fn approve_requires_admin_and_pending() {
    let admin = initialize_admin(99);
    let mut strategy = pending_strategy();

    let r = approve_strategy(&mut strategy, &admin, 98, 2_000);
    assert_eq!(r.err(), Some(StrategyError::UnauthorizedApprover));
    assert_eq!(strategy.status, StrategyStatus::Pending);

    let event = approve_strategy(&mut strategy, &admin, 99, 2_000).expect("admin approves");
    assert_eq!(strategy.status, StrategyStatus::Approved);
    assert_eq!(event.approver, 99);

    let r = approve_strategy(&mut strategy, &admin, 99, 2_000);
    assert_eq!(r.err(), Some(StrategyError::InvalidStatus));
}

#[test]
fn reject_is_terminal() {
    let admin = initialize_admin(99);
    let mut strategy = pending_strategy();
    let event = reject_strategy(&mut strategy, &admin, 99, 2_000).expect("admin rejects");
    assert_eq!(strategy.status, StrategyStatus::Rejected);
    assert_eq!(event.rejecter, 99);
    let r = approve_strategy(&mut strategy, &admin, 99, 2_000);
    assert_eq!(r.err(), Some(StrategyError::InvalidStatus));
}

#[test]
fn update_metrics_requires_approval() {
    let mut strategy = pending_strategy();
    let r = update_metrics(&mut strategy, 55, 100, true, 3_000);
    assert_eq!(r.err(), Some(StrategyError::StrategyNotApproved));
    assert_eq!(strategy.execution_count, 0);
}

#[test]
fn update_metrics_counts_successes_and_failures() {
    let admin = initialize_admin(99);
    let mut strategy = pending_strategy();
    approve_strategy(&mut strategy, &admin, 99, 2_000).expect("approved");

    let ev = update_metrics(&mut strategy, 55, 700, true, 3_000).expect("recorded");
    assert_eq!(ev.execution_count, 1);
    assert_eq!(ev.success_count, 1);
    let _ = update_metrics(&mut strategy, 55, 0, false, 3_100).expect("recorded");
    let _ = update_metrics(&mut strategy, 55, 300, true, 3_200).expect("recorded");

    assert_eq!(strategy.execution_count, 3);
    assert_eq!(strategy.success_count, 2);
    assert_eq!(strategy.total_profit, 1_000);
    assert_eq!(strategy.last_execution, 3_200);
}

#[test]
fn update_metrics_overflow_is_fatal_and_leaves_no_trace() {
    let admin = initialize_admin(99);
    let mut strategy = pending_strategy();
    approve_strategy(&mut strategy, &admin, 99, 2_000).expect("approved");
    strategy.total_profit = u64::MAX;
    let r = update_metrics(&mut strategy, 55, 1, true, 3_000);
    assert_eq!(r.err(), Some(StrategyError::ArithmeticOverflow));
    assert_eq!(strategy.execution_count, 0);
    assert_eq!(strategy.total_profit, u64::MAX);
}

#[test]
fn success_rate_truncates() {
    let admin = initialize_admin(99);
    let mut strategy = pending_strategy();
    approve_strategy(&mut strategy, &admin, 99, 2_000).expect("approved");
    update_metrics(&mut strategy, 55, 10, true, 3_000).expect("recorded");
    update_metrics(&mut strategy, 55, 0, false, 3_100).expect("recorded");
    update_metrics(&mut strategy, 55, 0, false, 3_200).expect("recorded");
    let stats = get_strategy_stats(&strategy);
    // one success out of three: thirty-three percent, truncated
    assert_eq!(stats.success_rate, 33);
    assert_eq!(stats.execution_count, 3);
    assert_eq!(stats.success_count, 1);
    assert_eq!(stats.status, StrategyStatus::Approved);
}

#[test]
fn stats_of_fresh_strategy_are_zero() {
    let strategy = pending_strategy();
    let stats = get_strategy_stats(&strategy);
    assert_eq!(stats.success_rate, 0);
    assert_eq!(stats.total_profit, 0);
}
