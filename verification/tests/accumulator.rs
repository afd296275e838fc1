use withdrawal_finalizer::Address;
use withdrawal_finalizer::Prediction;
use withdrawal_finalizer::TxHash;
use withdrawal_finalizer::WithdrawalParams;
use withdrawal_finalizer::WithdrawalsAccumulator;

fn hash(n: u64) -> TxHash {
    TxHash { w0: 0, w1: 0, w2: 0, w3: n }
}

fn record(n: u64) -> WithdrawalParams {
    WithdrawalParams {
        id: n,
        tx_hash: hash(n),
        event_index_in_tx: 0,
        sender: Address { a0: 0, a1: 0, a2: 7 },
        l1_batch_number: 100,
        l2_message_index: 7,
        l2_tx_number_in_block: 1,
        message: vec![1, 2, 3],
        merkle_proof: vec![hash(n + 1000)],
    }
}

#[test]
fn batch_fills_on_gas_budget() {
    // Nine identical ready records at 500k gas each against a 4M gas
    // budget: the batch reports full at eight entries, and the ninth
    // starts the next batch.
    let mut acc = WithdrawalsAccumulator::new(1_000_000_000, 800_000_000_000_000_000, 4_000_000, 500_000);
    let mut first_batch_len = 0;
    for n in 0..9u64 {
        acc.add_withdrawal(record(n));
        if acc.ready_to_finalize() && first_batch_len == 0 {
            let batch = acc.take_withdrawals();
            first_batch_len = batch.len();
        }
    }
    assert_eq!(first_batch_len, 8);
    let second = acc.take_withdrawals();
    assert_eq!(second.len(), 1);
    assert_eq!(second[0].id, 8);
}

#[test]
fn fee_ceiling_bites_before_gas_budget() {
    // At 100 gwei and 500k gas per entry, a 0.8 ether fee ceiling allows
    // floor(8e17 / (1e11 * 5e5)) = 16 entries; the gas budget is larger.
    let mut acc = WithdrawalsAccumulator::new(
        100_000_000_000,
        800_000_000_000_000_000,
        100_000_000_000_000,
        500_000,
    );
    let mut count = 0u64;
    while !acc.ready_to_finalize() {
        acc.add_withdrawal(record(count));
        count += 1;
    }
    assert_eq!(count, 16);
    assert_eq!(acc.take_withdrawals().len(), 16);
}

#[test]
fn single_withdrawal_packs_alone() {
    let mut acc = WithdrawalsAccumulator::new(1_000_000_000, 800_000_000_000_000_000, 4_000_000, 500_000);
    assert!(!acc.ready_to_finalize());
    acc.add_withdrawal(record(1));
    assert!(!acc.ready_to_finalize());
    assert_eq!(acc.withdrawals().len(), 1);
    let batch = acc.take_withdrawals();
    assert_eq!(batch.len(), 1);
    assert_eq!(batch[0].l1_batch_number, 100);
    assert_eq!(acc.withdrawals().len(), 0);
}

#[test]
fn remove_unsuccessful_splits_by_position() {
    // Mixed predictions over a batch of three: entry 2 fails outright,
    // entry 3 exceeds the 500k per-entry allowance; entry 1 survives.
    let mut acc = WithdrawalsAccumulator::new(1_000_000_000, 800_000_000_000_000_000, 4_000_000, 500_000);
    acc.add_withdrawal(record(1));
    acc.add_withdrawal(record(2));
    acc.add_withdrawal(record(3));
    let predictions = vec![
        Prediction { success: true, gas: 400_000 },
        Prediction { success: false, gas: 0 },
        Prediction { success: true, gas: 600_000 },
    ];
    let removed = acc.remove_unsuccessful(&predictions);
    assert_eq!(removed.len(), 2);
    assert_eq!(removed[0].id, 2);
    assert_eq!(removed[1].id, 3);
    let survivors = acc.withdrawals();
    assert_eq!(survivors.len(), 1);
    assert_eq!(survivors[0].id, 1);
}

#[test]
fn remove_unsuccessful_keeps_survivor_order() {
    let mut acc = WithdrawalsAccumulator::new(1_000_000_000, 800_000_000_000_000_000, 4_000_000, 500_000);
    for n in 0..5u64 {
        acc.add_withdrawal(record(n));
    }
    let predictions = vec![
        Prediction { success: true, gas: 1 },
        Prediction { success: false, gas: 1 },
        Prediction { success: true, gas: 2 },
        Prediction { success: false, gas: 2 },
        Prediction { success: true, gas: 3 },
    ];
    let removed = acc.remove_unsuccessful(&predictions);
    let survivors = acc.withdrawals();
    assert_eq!(survivors.len(), 3);
    assert_eq!(survivors[0].id, 0);
    assert_eq!(survivors[1].id, 2);
    assert_eq!(survivors[2].id, 4);
    assert_eq!(removed.len(), 2);
    assert_eq!(removed[0].id, 1);
    assert_eq!(removed[1].id, 3);
    // a later prediction round can keep packing into the same accumulator
    acc.add_withdrawal(record(9));
    assert_eq!(acc.withdrawals().len(), 4);
}

#[test]
fn budgets_hold_while_not_ready() {
    let gas_price: u128 = 2_000_000_000;
    let fee_limit: u128 = 800_000_000_000_000_000;
    let gas_budget: u128 = 4_000_000;
    let per_entry: u128 = 500_000;
    let mut acc = WithdrawalsAccumulator::new(gas_price, fee_limit, gas_budget, per_entry);
    let mut n = 0u64;
    while !acc.ready_to_finalize() {
        acc.add_withdrawal(record(n));
        n += 1;
        let total = acc.withdrawals().len() as u128 * per_entry;
        assert!(total <= gas_budget);
        assert!(gas_price * total <= fee_limit);
    }
}

#[test]
fn clean_predictions_remove_nothing() {
    let mut acc = WithdrawalsAccumulator::new(1_000_000_000, 800_000_000_000_000_000, 4_000_000, 500_000);
    acc.add_withdrawal(record(1));
    acc.add_withdrawal(record(2));
    let predictions = vec![
        Prediction { success: true, gas: 400_000 },
        Prediction { success: true, gas: 500_000 },
    ];
    let removed = acc.remove_unsuccessful(&predictions);
    assert!(removed.is_empty());
    assert_eq!(acc.withdrawals().len(), 2);
    assert_eq!(acc.withdrawals()[0].id, 1);
    assert_eq!(acc.withdrawals()[1].id, 2);
}
