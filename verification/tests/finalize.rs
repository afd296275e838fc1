use withdrawal_finalizer::is_gas_required_exceeds_allowance;
use withdrawal_finalizer::plan_after_mining;
use withdrawal_finalizer::plan_after_submission_error;
use withdrawal_finalizer::FinalizeAction;
use withdrawal_finalizer::Finalizer;
use withdrawal_finalizer::MiningOutcome;
use withdrawal_finalizer::Prediction;
use withdrawal_finalizer::SubmissionError;
use withdrawal_finalizer::TxHash;
use withdrawal_finalizer::WithdrawalKey;

fn key(n: u64) -> WithdrawalKey {
    WithdrawalKey {
        tx_hash: TxHash { w0: 0, w1: 0, w2: 0, w3: n },
        event_index_in_tx: 0,
    }
}

#[test]
fn out_of_funds_error_is_classified() {
    let e = SubmissionError::Rpc {
        code: -32000,
        message: String::from("gas required exceeds allowance 12345"),
    };
    assert!(is_gas_required_exceeds_allowance(&e));
}

#[test]
fn wrong_code_is_not_out_of_funds() {
    let e = SubmissionError::Rpc {
        code: -32603,
        message: String::from("gas required exceeds allowance 12345"),
    };
    assert!(!is_gas_required_exceeds_allowance(&e));
}

#[test]
fn wrong_message_is_not_out_of_funds() {
    let e = SubmissionError::Rpc {
        code: -32000,
        message: String::from("execution reverted"),
    };
    assert!(!is_gas_required_exceeds_allowance(&e));
    let short = SubmissionError::Rpc {
        code: -32000,
        message: String::from("gas required"),
    };
    assert!(!is_gas_required_exceeds_allowance(&short));
    assert!(!is_gas_required_exceeds_allowance(&SubmissionError::Other));
}

#[test]
fn exact_prefix_alone_is_out_of_funds() {
    let e = SubmissionError::Rpc {
        code: -32000,
        message: String::from("gas required exceeds allowance "),
    };
    assert!(is_gas_required_exceeds_allowance(&e));
}

#[test]
fn out_of_funds_plan_backs_off_without_bumping() {
    // An out-of-funds rejection of a batch of three: the low-gas metric
    // counts the whole batch, the loop sleeps ten seconds, and no retry
    // counter is named.
    let keys = vec![key(1), key(2), key(3)];
    let e = SubmissionError::Rpc {
        code: -32000,
        message: String::from("gas required exceeds allowance 12345"),
    };
    let action = plan_after_submission_error(keys, &e);
    match action {
        FinalizeAction::BackOffOutOfFunds { affected, backoff_secs } => {
            assert_eq!(affected, 3);
            assert_eq!(backoff_secs, 10);
        }
        _ => panic!("an out-of-funds rejection must plan a backoff"),
    }
}

#[test]
fn other_rejection_bumps_every_key() {
    let keys = vec![key(1), key(2)];
    let action = plan_after_submission_error(keys, &SubmissionError::Other);
    match action {
        FinalizeAction::BumpAttempts { keys } => {
            assert_eq!(keys.len(), 2);
            assert_eq!(keys[0], key(1));
            assert_eq!(keys[1], key(2));
        }
        _ => panic!("any other rejection must bump the batch's counters"),
    }
}

#[test]
fn mined_batch_is_marked_in_its_transaction() {
    let keys = vec![key(1)];
    let mined = TxHash { w0: 0xdead, w1: 0, w2: 0, w3: 0 };
    let action = plan_after_mining(keys, &MiningOutcome::Mined { tx: mined });
    match action {
        FinalizeAction::SetFinalized { keys, tx } => {
            assert_eq!(keys.len(), 1);
            assert_eq!(keys[0], key(1));
            assert_eq!(tx, mined);
        }
        _ => panic!("a mined batch must be marked finalized"),
    }
}

#[test]
fn missing_receipt_and_wait_failure_write_nothing() {
    let a = plan_after_mining(vec![key(1)], &MiningOutcome::NoReceipt);
    assert!(matches!(a, FinalizeAction::Nothing));
    let b = plan_after_mining(vec![key(1)], &MiningOutcome::WaitFailed);
    assert!(matches!(b, FinalizeAction::Nothing));
}

#[test]
fn finalizer_carries_configured_constants() {
    let f = Finalizer::new(500_000, 4_000_000);
    assert_eq!(f.one_withdrawal_gas_limit, 500_000);
    assert_eq!(f.batch_finalization_gas_limit, 4_000_000);
    assert_eq!(f.tx_fee_limit, 800_000_000_000_000_000);
    assert_eq!(f.no_new_withdrawals_backoff_secs, 5);
    assert_eq!(f.query_db_pagination_limit, 50);
    assert_eq!(f.unsuccessful.len(), 0);
}

#[test]
fn predict_fails_filters_by_success_and_gas() {
    let f = Finalizer::new(500_000, 4_000_000);
    let predictions = vec![
        Prediction { success: true, gas: 400_000 },
        Prediction { success: false, gas: 0 },
        Prediction { success: true, gas: 600_000 },
    ];
    let failed = f.predict_fails(&predictions);
    assert_eq!(failed.len(), 2);
    assert!(!failed[0].success);
    assert_eq!(failed[1].gas, 600_000);
    let clean = f.predict_fails(&vec![Prediction { success: true, gas: 500_000 }]);
    assert!(clean.is_empty());
}

#[test]
fn accumulator_is_rebuilt_with_finalizer_budgets() {
    let f = Finalizer::new(500_000, 4_000_000);
    let acc = f.new_accumulator(1_000_000_000);
    assert_eq!(acc.gas_price, 1_000_000_000);
    assert_eq!(acc.tx_fee_limit, 800_000_000_000_000_000);
    assert_eq!(acc.batch_finalization_gas_limit, 4_000_000);
    assert_eq!(acc.one_withdrawal_gas_limit, 500_000);
    assert_eq!(acc.withdrawals.len(), 0);
}

#[test]
fn simulation_fires_when_full_or_out_of_input() {
    let f = Finalizer::new(500_000, 4_000_000);
    let acc = f.new_accumulator(1_000_000_000);
    assert!(!withdrawal_finalizer::should_simulate(&acc, true));
    assert!(withdrawal_finalizer::should_simulate(&acc, false));
}

#[test]
fn empty_page_sleeps_five_seconds() {
    assert_eq!(withdrawal_finalizer::empty_page_backoff(0), Some(5));
    assert_eq!(withdrawal_finalizer::empty_page_backoff(3), None);
}
