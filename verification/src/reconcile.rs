//! Reconciliation of withdrawals predicted to fail: with one is-finalized
//! answer per entry, split the buffer into the keys to mark finalized under
//! the zero-hash sentinel and the keys whose retry counter is bumped.

use vstd::prelude::*;

use crate::finalize::Finalizer;
use crate::types::WithdrawalKey;
use crate::types::WithdrawalParams;

verus! {

/// The keys of the buffered entries whose on-chain check answered
/// "finalized", in buffer order.
pub open spec fn finalized_keys_of(ws: Seq<WithdrawalParams>, flags: Seq<bool>) -> Seq<
    WithdrawalKey,
>
    decreases ws.len(),
{
    if ws.len() == 0 {
        Seq::empty()
    } else {
        let rest = finalized_keys_of(ws.drop_last(), flags.drop_last());
        if flags.last() {
            rest.push(ws.last().key_spec())
        } else {
            rest
        }
    }
}

/// The keys of the buffered entries whose on-chain check answered "not
/// finalized", in buffer order.
pub open spec fn unsuccessful_keys_of(ws: Seq<WithdrawalParams>, flags: Seq<bool>) -> Seq<
    WithdrawalKey,
>
    decreases ws.len(),
{
    if ws.len() == 0 {
        Seq::empty()
    } else {
        let rest = unsuccessful_keys_of(ws.drop_last(), flags.drop_last());
        if flags.last() {
            rest
        } else {
            rest.push(ws.last().key_spec())
        }
    }
}

/// No two entries of the buffer share a key.
pub open spec fn keys_distinct(ws: Seq<WithdrawalParams>) -> bool {
    forall|i: int, j: int|
        0 <= i < j < ws.len() ==> ws[i].key_spec() != ws[j].key_spec()
}

proof fn lemma_finalized_keys_member(ws: Seq<WithdrawalParams>, flags: Seq<bool>, k: WithdrawalKey)
    requires
        ws.len() == flags.len(),
        finalized_keys_of(ws, flags).contains(k),
    ensures
        exists|i: int| 0 <= i < ws.len() && flags[i] && ws[i].key_spec() == k,
    decreases ws.len(),
{
    if ws.len() > 0 {
        let rest = finalized_keys_of(ws.drop_last(), flags.drop_last());
        if flags.last() && ws.last().key_spec() == k {
            assert(flags[ws.len() - 1] && ws[ws.len() - 1].key_spec() == k);
        } else {
            if flags.last() {
                let full = rest.push(ws.last().key_spec());
                let ix = choose|ix: int| 0 <= ix < full.len() && full[ix] == k;
                assert(rest[ix] == k);
                assert(rest.contains(k));
            }
            lemma_finalized_keys_member(ws.drop_last(), flags.drop_last(), k);
            let i = choose|i: int|
                0 <= i < ws.len() - 1 && flags.drop_last()[i] && ws.drop_last()[i].key_spec() == k;
            assert(flags[i] && ws[i].key_spec() == k);
        }
    }
}

proof fn lemma_unsuccessful_keys_member(
    ws: Seq<WithdrawalParams>,
    flags: Seq<bool>,
    k: WithdrawalKey,
)
    requires
        ws.len() == flags.len(),
        unsuccessful_keys_of(ws, flags).contains(k),
    ensures
        exists|i: int| 0 <= i < ws.len() && !flags[i] && ws[i].key_spec() == k,
    decreases ws.len(),
{
    if ws.len() > 0 {
        let rest = unsuccessful_keys_of(ws.drop_last(), flags.drop_last());
        if !flags.last() && ws.last().key_spec() == k {
            assert(!flags[ws.len() - 1] && ws[ws.len() - 1].key_spec() == k);
        } else {
            if !flags.last() {
                let full = rest.push(ws.last().key_spec());
                let ix = choose|ix: int| 0 <= ix < full.len() && full[ix] == k;
                assert(rest[ix] == k);
                assert(rest.contains(k));
            }
            lemma_unsuccessful_keys_member(ws.drop_last(), flags.drop_last(), k);
            let i = choose|i: int|
                0 <= i < ws.len() - 1 && !flags.drop_last()[i] && ws.drop_last()[i].key_spec()
                    == k;
            assert(flags[i] == flags.drop_last()[i]);
            assert(!flags[i] && ws[i].key_spec() == k);
        }
    }
}

proof fn lemma_partition_covers(ws: Seq<WithdrawalParams>, flags: Seq<bool>, i: int)
    requires
        ws.len() == flags.len(),
        0 <= i < ws.len(),
    ensures
        flags[i] ==> finalized_keys_of(ws, flags).contains(ws[i].key_spec()),
        !flags[i] ==> unsuccessful_keys_of(ws, flags).contains(ws[i].key_spec()),
    decreases ws.len(),
{
    let fin = finalized_keys_of(ws, flags);
    let uns = unsuccessful_keys_of(ws, flags);
    let restf = finalized_keys_of(ws.drop_last(), flags.drop_last());
    let restu = unsuccessful_keys_of(ws.drop_last(), flags.drop_last());
    if i == ws.len() - 1 {
        if flags[i] {
            assert(fin[fin.len() - 1] == ws[i].key_spec());
        } else {
            assert(uns[uns.len() - 1] == ws[i].key_spec());
        }
    } else {
        lemma_partition_covers(ws.drop_last(), flags.drop_last(), i);
        if flags[i] {
            let ix = choose|ix: int| 0 <= ix < restf.len() && restf[ix] == ws.drop_last()[i].key_spec();
            assert(fin[ix] == ws[i].key_spec());
        } else {
            let ix = choose|ix: int| 0 <= ix < restu.len() && restu[ix] == ws.drop_last()[i].key_spec();
            assert(uns[ix] == ws[i].key_spec());
        }
    }
}

proof fn lemma_partition_lengths(ws: Seq<WithdrawalParams>, flags: Seq<bool>)
    requires
        ws.len() == flags.len(),
    ensures
        finalized_keys_of(ws, flags).len() + unsuccessful_keys_of(ws, flags).len() == ws.len(),
    decreases ws.len(),
{
    if ws.len() > 0 {
        lemma_partition_lengths(ws.drop_last(), flags.drop_last());
    }
}

/// Reconciliation dichotomy: when no two buffered entries share a key,
/// every entry's key lands, by its is-finalized answer, in exactly one of
/// the two lists — marked finalized under the sentinel, or counted as a
/// failed attempt — never both and never neither.
pub proof fn lemma_reconciliation_dichotomy(ws: Seq<WithdrawalParams>, flags: Seq<bool>)
    requires
        ws.len() == flags.len(),
        keys_distinct(ws),
    ensures
        finalized_keys_of(ws, flags).len() + unsuccessful_keys_of(ws, flags).len() == ws.len(),
        forall|i: int|
            0 <= i < ws.len() && flags[i] ==> finalized_keys_of(ws, flags).contains(
                ws[i].key_spec(),
            ) && !unsuccessful_keys_of(ws, flags).contains(ws[i].key_spec()),
        forall|i: int|
            0 <= i < ws.len() && !flags[i] ==> unsuccessful_keys_of(ws, flags).contains(
                ws[i].key_spec(),
            ) && !finalized_keys_of(ws, flags).contains(ws[i].key_spec()),
{
    lemma_partition_lengths(ws, flags);
    assert forall|i: int| 0 <= i < ws.len() && flags[i] implies finalized_keys_of(
        ws,
        flags,
    ).contains(ws[i].key_spec()) && !unsuccessful_keys_of(ws, flags).contains(
        ws[i].key_spec(),
    ) by {
        lemma_partition_covers(ws, flags, i);
        if unsuccessful_keys_of(ws, flags).contains(ws[i].key_spec()) {
            lemma_unsuccessful_keys_member(ws, flags, ws[i].key_spec());
            let j = choose|j: int|
                0 <= j < ws.len() && !flags[j] && ws[j].key_spec() == ws[i].key_spec();
            assert(j != i);
            assert(false);
        }
    }
    assert forall|i: int| 0 <= i < ws.len() && !flags[i] implies unsuccessful_keys_of(
        ws,
        flags,
    ).contains(ws[i].key_spec()) && !finalized_keys_of(ws, flags).contains(
        ws[i].key_spec(),
    ) by {
        lemma_partition_covers(ws, flags, i);
        if finalized_keys_of(ws, flags).contains(ws[i].key_spec()) {
            lemma_finalized_keys_member(ws, flags, ws[i].key_spec());
            let j = choose|j: int|
                0 <= j < ws.len() && flags[j] && ws[j].key_spec() == ws[i].key_spec();
            assert(j != i);
            assert(false);
        }
    }
}

/// Splits buffered entries by their is-finalized answers into the keys to
/// mark finalized under the zero-hash sentinel and the keys whose retry
/// counter is bumped.  The answer list is aligned positionally with the
/// buffer, and both outputs keep buffer order.
pub fn partition_reconciled(predicted: &Vec<WithdrawalParams>, finalized: &Vec<bool>) -> (r: (
    Vec<WithdrawalKey>,
    Vec<WithdrawalKey>,
))
    requires
        finalized@.len() == predicted@.len(),
    ensures
        r.0@ == finalized_keys_of(predicted@, finalized@),
        r.1@ == unsuccessful_keys_of(predicted@, finalized@),
{
    let mut already_finalized: Vec<WithdrawalKey> = Vec::new();
    let mut unsuccessful: Vec<WithdrawalKey> = Vec::new();
    let mut i: usize = 0;
    proof {
        assert(already_finalized@ =~= finalized_keys_of(predicted@.take(0), finalized@.take(0)));
        assert(unsuccessful@ =~= unsuccessful_keys_of(predicted@.take(0), finalized@.take(0)));
    }
    while i < predicted.len()
        invariant
            i <= predicted@.len(),
            finalized@.len() == predicted@.len(),
            already_finalized@ == finalized_keys_of(
                predicted@.take(i as int),
                finalized@.take(i as int),
            ),
            unsuccessful@ == unsuccessful_keys_of(
                predicted@.take(i as int),
                finalized@.take(i as int),
            ),
        decreases predicted@.len() - i,
    {
        proof {
            assert(predicted@.take(i + 1).drop_last() =~= predicted@.take(i as int));
            assert(finalized@.take(i + 1).drop_last() =~= finalized@.take(i as int));
            assert(predicted@.take(i + 1).last() == predicted@[i as int]);
            assert(finalized@.take(i + 1).last() == finalized@[i as int]);
        }
        let key = predicted[i].key();
        if finalized[i] {
            already_finalized.push(key);
        } else {
            unsuccessful.push(key);
        }
        i = i + 1;
    }
    proof {
        assert(predicted@.take(i as int) =~= predicted@);
        assert(finalized@.take(i as int) =~= finalized@);
    }
    (already_finalized, unsuccessful)
}

impl Finalizer {
    /// Drains the reconciliation buffer against its is-finalized answers:
    /// returns the keys found finalized externally and the keys whose retry
    /// counter is to be bumped, and leaves the buffer empty.  The answer
    /// list is aligned positionally with the buffer.
    pub fn process_unsuccessful(&mut self, finalized: &Vec<bool>) -> (r: (
        Vec<WithdrawalKey>,
        Vec<WithdrawalKey>,
    ))
        requires
            finalized@.len() == old(self).unsuccessful@.len(),
        ensures
            r.0@ == finalized_keys_of(old(self).unsuccessful@, finalized@),
            r.1@ == unsuccessful_keys_of(old(self).unsuccessful@, finalized@),
            final(self).unsuccessful@.len() == 0,
            final(self).one_withdrawal_gas_limit == old(self).one_withdrawal_gas_limit,
            final(self).batch_finalization_gas_limit == old(self).batch_finalization_gas_limit,
            final(self).no_new_withdrawals_backoff_secs == old(
                self,
            ).no_new_withdrawals_backoff_secs,
            final(self).query_db_pagination_limit == old(self).query_db_pagination_limit,
            final(self).tx_fee_limit == old(self).tx_fee_limit,
    {
        let r = partition_reconciled(&self.unsuccessful, finalized);
        self.unsuccessful.clear();
        r
    }
}

} // verus!
