//! The params fetcher's pure steps: naming what to fetch for a page of raw
//! records, and attaching each record's storage id to the parameters that
//! came back, keyed by position.

use vstd::prelude::*;

use crate::types::StoredWithdrawal;
use crate::types::TxHash;
use crate::types::WithdrawalParams;

verus! {

/// The fetch targets of a page of raw records: each record's transaction
/// hash and event index, in page order, as handed to the layer-2 node.
pub fn fetch_targets(records: &Vec<StoredWithdrawal>) -> (r: Vec<(TxHash, u32)>)
    ensures
        r@.len() == records@.len(),
        forall|i: int|
            0 <= i < records@.len() ==> r@[i] == (
                records@[i].key.tx_hash,
                records@[i].key.event_index_in_tx,
            ),
{
    let mut r: Vec<(TxHash, u32)> = Vec::new();
    let mut i: usize = 0;
    while i < records.len()
        invariant
            i <= records@.len(),
            r@.len() == i,
            forall|j: int|
                0 <= j < i ==> r@[j] == (
                    records@[j].key.tx_hash,
                    records@[j].key.event_index_in_tx,
                ),
        decreases records@.len() - i,
    {
        let rec = &records[i];
        r.push((rec.key.tx_hash, rec.key.event_index_in_tx));
        i = i + 1;
    }
    r
}

/// A withdrawal record with only its storage id replaced.
pub open spec fn with_id(w: WithdrawalParams, id: u64) -> WithdrawalParams {
    WithdrawalParams {
        id: id,
        tx_hash: w.tx_hash,
        event_index_in_tx: w.event_index_in_tx,
        sender: w.sender,
        l1_batch_number: w.l1_batch_number,
        l2_message_index: w.l2_message_index,
        l2_tx_number_in_block: w.l2_tx_number_in_block,
        message: w.message,
        merkle_proof: w.merkle_proof,
    }
}

/// Attaches each raw record's storage id to the parameters fetched for it,
/// pairing the two lists by position; everything else in each parameter
/// bundle stays as fetched.
pub fn attach_ids(params: Vec<WithdrawalParams>, records: &Vec<StoredWithdrawal>) -> (r: Vec<
    WithdrawalParams,
>)
    requires
        records@.len() == params@.len(),
    ensures
        r@.len() == params@.len(),
        forall|i: int| 0 <= i < params@.len() ==> r@[i] == with_id(params@[i], records@[i].id),
{
    let mut rest = params;
    let mut r: Vec<WithdrawalParams> = Vec::new();
    let ghost old_seq = rest@;
    let mut i: usize = 0;
    let total = rest.len();
    while rest.len() > 0
        invariant
            i + rest@.len() == old_seq.len(),
            old_seq.len() == total,
            records@.len() == old_seq.len(),
            rest@ == old_seq.subrange(i as int, old_seq.len() as int),
            r@.len() == i,
            forall|j: int| 0 <= j < i ==> r@[j] == with_id(old_seq[j], records@[j].id),
        decreases rest@.len(),
    {
        let mut p = rest.remove(0);
        proof {
            assert(rest@ =~= old_seq.subrange(i + 1, old_seq.len() as int));
        }
        p.id = records[i].id;
        r.push(p);
        i = i + 1;
    }
    r
}

} // verus!
