use rebel_protocol::monitor::{
    build_execution_record, extract_address_from_log, parse_execution_transaction,
    transaction_involves_programs, ExecutionAlert, HeliusMessage, HeliusMeta, HeliusTransaction,
    HeliusTransactionData,
};

#[test]
fn test_extract_address_from_log() {
    let log = "Program log: Strategy: 58oQChx4yWmvKdwLLZzBi4ChoCc2fqCUWBkwMihLYQo2";
    let addr = extract_address_from_log(log, "Strategy:");
    assert_eq!(
        addr,
        Some("58oQChx4yWmvKdwLLZzBi4ChoCc2fqCUWBkwMihLYQo2".to_string())
    );
}

#[test]
fn extract_takes_first_token_only() {
    let log = "Executor: alice bob";
    assert_eq!(
        extract_address_from_log(log, "Executor:"),
        Some("alice".to_string())
    );
}

#[test]
fn extract_missing_marker_yields_nothing() {
    assert_eq!(extract_address_from_log("Program log: nothing here", "Strategy:"), None);
}

#[test]
fn extract_only_whitespace_after_marker_yields_nothing() {
    assert_eq!(extract_address_from_log("Strategy:   ", "Strategy:"), None);
    assert_eq!(extract_address_from_log("Strategy:", "Strategy:"), None);
}

#[test]
fn extract_segment_ends_at_next_marker() {
    // the segment between two adjacent markers is empty, so nothing is read
    assert_eq!(extract_address_from_log("Strategy:Strategy: x", "Strategy:"), None);
}

fn tx_with_logs(logs: Vec<&str>) -> HeliusTransaction {
    HeliusTransaction {
        signature: "sig-1".to_string(),
        slot: 5,
        block_time: Some(1_700_000_000),
        meta: Some(HeliusMeta {
            err: None,
            log_messages: Some(logs.into_iter().map(|s| s.to_string()).collect()),
            fee: Some(5000),
        }),
        transaction: Some(HeliusTransactionData {
            message: Some(HeliusMessage {
                account_keys: Some(vec!["first-key".to_string(), "second-key".to_string()]),
            }),
        }),
    }
}

#[test]
fn parse_reads_strategy_executor_and_profit() {
    let tx = tx_with_logs(vec![
        "Program log: Strategy: addr111",
        "Program log: Executor: exec222",
        "Program log: Profit: 791",
    ]);
    let alert: ExecutionAlert = parse_execution_transaction(&tx).expect("alert expected");
    assert_eq!(alert.signature, "sig-1");
    assert_eq!(alert.strategy_address, "addr111");
    assert_eq!(alert.executor, "exec222");
    assert!(alert.success);
    assert_eq!(alert.profit_lamports, Some(791));
    assert_eq!(alert.error, None);
    assert_eq!(alert.timestamp, 1_700_000_000);
}

#[test]
fn parse_last_value_wins_and_errors_are_kept() {
    let tx = tx_with_logs(vec![
        "Strategy: one",
        "Strategy: two",
        "Profit: 10",
        "Profit: not-a-number",
        "something failed badly",
    ]);
    let alert = parse_execution_transaction(&tx).expect("alert expected");
    assert_eq!(alert.strategy_address, "two");
    // an unreadable later profit keeps the earlier one
    assert_eq!(alert.profit_lamports, Some(10));
    assert_eq!(alert.error, Some("something failed badly".to_string()));
}

#[test]
fn parse_falls_back_to_first_account_key() {
    let tx = tx_with_logs(vec!["Strategy: addr333"]);
    let alert = parse_execution_transaction(&tx).expect("alert expected");
    assert_eq!(alert.executor, "first-key");
    assert_eq!(alert.strategy_address, "addr333");
}

#[test]
fn parse_without_markers_yields_nothing() {
    let mut tx = tx_with_logs(vec!["Program log: hello"]);
    tx.transaction = None;
    assert!(parse_execution_transaction(&tx).is_none());
}

#[test]
fn parse_without_logs_yields_nothing() {
    let mut tx = tx_with_logs(vec![]);
    if let Some(meta) = tx.meta.as_mut() {
        meta.log_messages = None;
    }
    assert!(parse_execution_transaction(&tx).is_none());
}

#[test]
fn parse_failed_transaction_is_not_successful() {
    let mut tx = tx_with_logs(vec!["Strategy: addr444"]);
    if let Some(meta) = tx.meta.as_mut() {
        meta.err = Some("some error".to_string());
    }
    let alert = parse_execution_transaction(&tx).expect("alert expected");
    assert!(!alert.success);
}

#[test]
fn parse_negative_profit() {
    let tx = tx_with_logs(vec!["Strategy: s", "Profit: -42"]);
    let alert = parse_execution_transaction(&tx).expect("alert expected");
    assert_eq!(alert.profit_lamports, Some(-42));
}

#[test]
fn involves_programs_finds_a_known_key() {
    let keys = vec!["aaa".to_string(), "registry-id".to_string()];
    let registry = "registry-id".to_string();
    let engine = "engine-id".to_string();
    assert!(transaction_involves_programs(&keys, &registry, &engine));
    let other = vec!["aaa".to_string(), "bbb".to_string()];
    assert!(!transaction_involves_programs(&other, &registry, &engine));
}

#[test]
fn record_defaults_missing_profit_and_fee_to_zero() {
    let tx = tx_with_logs(vec!["Strategy: addr555"]);
    let alert = parse_execution_transaction(&tx).expect("alert expected");
    let record = build_execution_record(&alert, Some("uuid-1".to_string()), Some(5_000));
    assert_eq!(record.signature, "sig-1");
    assert_eq!(record.strategy_id, Some("uuid-1".to_string()));
    assert_eq!(record.executor, "first-key");
    assert_eq!(record.profit_lamports, 0);
    assert_eq!(record.gas_used, 5_000);
    assert!(record.success);

    let bare = build_execution_record(&alert, None, None);
    assert_eq!(bare.strategy_id, None);
    assert_eq!(bare.gas_used, 0);
}
