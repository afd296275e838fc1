use withdrawal_finalizer::partition_reconciled;
use withdrawal_finalizer::Address;
use withdrawal_finalizer::Finalizer;
use withdrawal_finalizer::TxHash;
use withdrawal_finalizer::WithdrawalParams;

fn hash(n: u64) -> TxHash {
    TxHash { w0: 0, w1: 0, w2: 0, w3: n }
}

fn erc20_record(n: u64) -> WithdrawalParams {
    WithdrawalParams {
        id: n,
        tx_hash: hash(n),
        event_index_in_tx: 0,
        sender: Address { a0: 1, a1: 2, a2: 3 },
        l1_batch_number: 55,
        l2_message_index: 9,
        l2_tx_number_in_block: 4,
        message: vec![0xaa],
        merkle_proof: vec![],
    }
}

#[test]
fn externally_finalized_entry_gets_zero_hash_sentinel() {
    // One token withdrawal predicted to fail whose bridge contract
    // answers "finalized": its key goes to the finalized list — the shell
    // writes it with the zero hash — and no retry counter is named.
    let predicted = vec![erc20_record(1)];
    let finalized = vec![true];
    let (already_finalized, unsuccessful) = partition_reconciled(&predicted, &finalized);
    assert_eq!(already_finalized.len(), 1);
    assert_eq!(already_finalized[0], predicted[0].key());
    assert!(unsuccessful.is_empty());
    assert!(TxHash::zero().is_zero());
}

#[test]
fn genuinely_failed_entry_is_counted() {
    let predicted = vec![erc20_record(1)];
    let finalized = vec![false];
    let (already_finalized, unsuccessful) = partition_reconciled(&predicted, &finalized);
    assert!(already_finalized.is_empty());
    assert_eq!(unsuccessful.len(), 1);
    assert_eq!(unsuccessful[0], predicted[0].key());
}

#[test]
fn every_buffered_entry_lands_in_exactly_one_list() {
    let predicted = vec![erc20_record(1), erc20_record(2), erc20_record(3), erc20_record(4)];
    let finalized = vec![true, false, true, false];
    let (already_finalized, unsuccessful) = partition_reconciled(&predicted, &finalized);
    assert_eq!(already_finalized.len() + unsuccessful.len(), predicted.len());
    assert_eq!(already_finalized[0], predicted[0].key());
    assert_eq!(already_finalized[1], predicted[2].key());
    assert_eq!(unsuccessful[0], predicted[1].key());
    assert_eq!(unsuccessful[1], predicted[3].key());
    for w in &predicted {
        let k = w.key();
        let in_finalized = already_finalized.contains(&k);
        let in_unsuccessful = unsuccessful.contains(&k);
        assert!(in_finalized != in_unsuccessful);
    }
}

#[test]
fn processing_drains_the_buffer() {
    let mut f = Finalizer::new(500_000, 4_000_000);
    let mut removed = vec![erc20_record(1), erc20_record(2)];
    f.park_unsuccessful(&mut removed);
    assert!(removed.is_empty());
    assert_eq!(f.unsuccessful().len(), 2);
    let flags = vec![true, false];
    let (already_finalized, unsuccessful) = f.process_unsuccessful(&flags);
    assert_eq!(already_finalized.len(), 1);
    assert_eq!(unsuccessful.len(), 1);
    assert_eq!(f.unsuccessful().len(), 0);
}

#[test]
fn empty_buffer_reconciles_to_nothing() {
    let mut f = Finalizer::new(500_000, 4_000_000);
    let flags: Vec<bool> = vec![];
    let (already_finalized, unsuccessful) = f.process_unsuccessful(&flags);
    assert!(already_finalized.is_empty());
    assert!(unsuccessful.is_empty());
}
