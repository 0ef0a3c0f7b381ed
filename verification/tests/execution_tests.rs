use arbscan::errors::ExecFailure;
use arbscan::evaluator::ArbitrageOpportunity;
use arbscan::execution::{ExecStatus, ExecutionEngine, SettleOutcome};

fn opportunity() -> ArbitrageOpportunity {
    ArbitrageOpportunity {
        buy_venue: 2,
        sell_venue: 1,
        price_buy: 99_800_000_000,
        price_sell: 100_500_000_000,
        depth_buy: 1000,
        depth_sell: 1000,
        spread_abs: 700_000_000,
        spread_rel: 7_014_028,
        size: 1000,
        net_edge: 700_000_000,
        est_net_profit: 700_000_000_000,
    }
}

#[test]
fn settlement_timeout_blocks_until_resolved() {
    // After a successful start and a settlement timeout, no second
    // execution begins until the pending transaction is resolved.
    let mut engine = ExecutionEngine::new();
    let opp = opportunity();
    assert!(engine.can_accept());
    assert!(engine.begin());

    let record = engine.settle(&opp, SettleOutcome::TimedOut { tx_id: 555 }).unwrap();
    assert_eq!(record.status, ExecStatus::TimedOut);
    assert_eq!(record.tx_id, Some(555));
    assert_eq!(record.realized, 0);
    assert_eq!(record.opportunity, opp);

    // Blocked: nothing starts, nothing settles.
    assert!(!engine.can_accept());
    assert!(!engine.begin());
    assert!(engine.settle(&opp, SettleOutcome::SubmissionFailed).is_none());

    // The follow-up query resolves the pending transaction.
    assert!(engine.resolve());
    assert!(engine.can_accept());
    assert!(engine.begin());
}

#[test]
fn confirmed_execution_records_profit() {
    let mut engine = ExecutionEngine::new();
    let opp = opportunity();
    assert!(engine.begin());
    let record = engine
        .settle(&opp, SettleOutcome::Confirmed { tx_id: 7, realized: 650_000_000_000 })
        .unwrap();
    assert_eq!(record.status, ExecStatus::Confirmed);
    assert_eq!(record.tx_id, Some(7));
    assert_eq!(record.realized, 650_000_000_000);
    // The engine is free again without any reconciliation.
    assert!(engine.can_accept());
}

#[test]
fn submission_failure_records_without_tx() {
    let mut engine = ExecutionEngine::new();
    let opp = opportunity();
    assert!(engine.begin());
    let record = engine.settle(&opp, SettleOutcome::SubmissionFailed).unwrap();
    assert_eq!(record.status, ExecStatus::Failed(ExecFailure::Submission));
    assert_eq!(record.tx_id, None);
    assert_eq!(record.realized, 0);
    assert!(engine.can_accept());
}

#[test]
fn slippage_revert_records_zero_loss() {
    let mut engine = ExecutionEngine::new();
    let opp = opportunity();
    assert!(engine.begin());
    let record = engine.settle(&opp, SettleOutcome::SlippageReverted { tx_id: 9 }).unwrap();
    assert_eq!(record.status, ExecStatus::Failed(ExecFailure::Slippage));
    assert_eq!(record.tx_id, Some(9));
    assert_eq!(record.realized, 0);
    assert!(engine.can_accept());
}

#[test]
fn nothing_settles_when_nothing_started() {
    let mut engine = ExecutionEngine::new();
    let opp = opportunity();
    assert!(engine.settle(&opp, SettleOutcome::SubmissionFailed).is_none());
    assert!(!engine.resolve());
    assert!(engine.can_accept());
}
