use withdrawal_finalizer::attach_ids;
use withdrawal_finalizer::fetch_targets;
use withdrawal_finalizer::is_native_asset;
use withdrawal_finalizer::keys_of;
use withdrawal_finalizer::requests_of;
use withdrawal_finalizer::Address;
use withdrawal_finalizer::StoredWithdrawal;
use withdrawal_finalizer::TxHash;
use withdrawal_finalizer::WithdrawalKey;
use withdrawal_finalizer::WithdrawalParams;

fn hash(n: u64) -> TxHash {
    TxHash { w0: 0xabc, w1: 0, w2: 0, w3: n }
}

fn eth_record(n: u64) -> WithdrawalParams {
    WithdrawalParams {
        id: 0,
        tx_hash: hash(n),
        event_index_in_tx: 0,
        sender: Address::native_token(),
        l1_batch_number: 100,
        l2_message_index: 7,
        l2_tx_number_in_block: 2,
        message: vec![5, 6],
        merkle_proof: vec![hash(99)],
    }
}

#[test]
fn fetch_targets_name_each_record_once() {
    let records = vec![
        StoredWithdrawal { id: 10, key: WithdrawalKey { tx_hash: hash(1), event_index_in_tx: 0 } },
        StoredWithdrawal { id: 11, key: WithdrawalKey { tx_hash: hash(2), event_index_in_tx: 3 } },
    ];
    let targets = fetch_targets(&records);
    assert_eq!(targets.len(), 2);
    assert_eq!(targets[0], (hash(1), 0));
    assert_eq!(targets[1], (hash(2), 3));
}

#[test]
fn fetched_params_get_their_storage_ids() {
    let records = vec![
        StoredWithdrawal { id: 10, key: WithdrawalKey { tx_hash: hash(1), event_index_in_tx: 0 } },
        StoredWithdrawal { id: 11, key: WithdrawalKey { tx_hash: hash(2), event_index_in_tx: 0 } },
    ];
    let params = vec![eth_record(1), eth_record(2)];
    let attached = attach_ids(params, &records);
    assert_eq!(attached.len(), 2);
    assert_eq!(attached[0].id, 10);
    assert_eq!(attached[1].id, 11);
    assert_eq!(attached[0].tx_hash, hash(1));
    assert_eq!(attached[1].message, vec![5, 6]);
}

#[test]
fn requests_carry_the_per_entry_gas_limit() {
    // Every entry handed to the finalizer contract must carry the
    // configured per-withdrawal gas allowance.
    let batch = vec![eth_record(1), eth_record(2)];
    let requests = requests_of(&batch, 500_000);
    assert_eq!(requests.len(), 2);
    for r in &requests {
        assert_eq!(r.gas_limit, 500_000);
        assert!(r.is_eth);
    }
    assert_eq!(requests[0].l1_batch_number, 100);
    assert_eq!(requests[0].l2_message_index, 7);
    assert_eq!(requests[0].message, vec![5, 6]);
    assert_eq!(requests[1].key, batch[1].key());
}

#[test]
fn token_withdrawals_are_not_marked_as_native() {
    let mut w = eth_record(3);
    w.sender = Address { a0: 9, a1: 9, a2: 9 };
    assert!(!is_native_asset(w.sender));
    assert!(is_native_asset(Address::native_token()));
    let requests = requests_of(&vec![w], 500_000);
    assert!(!requests[0].is_eth);
}

#[test]
fn keys_follow_batch_order() {
    let batch = vec![eth_record(4), eth_record(5)];
    let keys = keys_of(&batch);
    assert_eq!(keys.len(), 2);
    assert_eq!(keys[0], batch[0].key());
    assert_eq!(keys[1], batch[1].key());
}
