//! A specification-level model of the persistent store the two loops
//! coordinate through: what each storage write does to the records, and
//! what that implies for records whose finalization is already on record.

use vstd::prelude::*;

use crate::finalize::FinalizeAction;
use crate::reconcile::finalized_keys_of;
use crate::reconcile::keys_distinct;
use crate::reconcile::lemma_reconciliation_dichotomy;
use crate::reconcile::unsuccessful_keys_of;
use crate::types::TxHash;
use crate::types::WithdrawalKey;
use crate::types::WithdrawalParams;

verus! {

/// The storage-visible state of one withdrawal record.
pub struct RecordModel {
    /// Whether the finalization parameters have been attached.
    pub params_present: bool,
    /// How many finalization attempts have failed so far.
    pub unsuccessful_attempts: nat,
    /// The finalization transaction once one is on record; the zero hash
    /// means "known finalized, transaction of record unknown".
    pub finalization_tx: Option<TxHash>,
}

/// A record is terminal once a finalization transaction is on record for
/// it, the zero-hash sentinel included.
pub open spec fn is_terminal(store: Map<WithdrawalKey, RecordModel>, k: WithdrawalKey) -> bool {
    store.dom().contains(k) && store[k].finalization_tx is Some
}

/// A record is ready to finalize while its parameters are present and no
/// finalization transaction is on record; only such records are handed to
/// a finalizer iteration.
pub open spec fn is_ready(store: Map<WithdrawalKey, RecordModel>, k: WithdrawalKey) -> bool {
    store.dom().contains(k) && store[k].params_present && store[k].finalization_tx is None
}

/// One retry-counter bump.
pub open spec fn bump_one(store: Map<WithdrawalKey, RecordModel>, k: WithdrawalKey) -> Map<
    WithdrawalKey,
    RecordModel,
> {
    if store.dom().contains(k) {
        store.insert(
            k,
            RecordModel {
                params_present: store[k].params_present,
                unsuccessful_attempts: store[k].unsuccessful_attempts + 1,
                finalization_tx: store[k].finalization_tx,
            },
        )
    } else {
        store
    }
}

/// The storage write that bumps the retry counter of every listed key.
pub open spec fn apply_bump_attempts(
    store: Map<WithdrawalKey, RecordModel>,
    keys: Seq<WithdrawalKey>,
) -> Map<WithdrawalKey, RecordModel>
    decreases keys.len(),
{
    if keys.len() == 0 {
        store
    } else {
        bump_one(apply_bump_attempts(store, keys.drop_last()), keys.last())
    }
}

/// One finalization mark.
pub open spec fn set_one_finalized(
    store: Map<WithdrawalKey, RecordModel>,
    k: WithdrawalKey,
    tx: TxHash,
) -> Map<WithdrawalKey, RecordModel> {
    if store.dom().contains(k) {
        store.insert(
            k,
            RecordModel {
                params_present: store[k].params_present,
                unsuccessful_attempts: store[k].unsuccessful_attempts,
                finalization_tx: Some(tx),
            },
        )
    } else {
        store
    }
}

/// The storage write that marks every listed key finalized in the given
/// transaction.
pub open spec fn apply_set_finalized(
    store: Map<WithdrawalKey, RecordModel>,
    keys: Seq<WithdrawalKey>,
    tx: TxHash,
) -> Map<WithdrawalKey, RecordModel>
    decreases keys.len(),
{
    if keys.len() == 0 {
        store
    } else {
        set_one_finalized(apply_set_finalized(store, keys.drop_last(), tx), keys.last(), tx)
    }
}

/// What a planned action does to the store: the two storage-writing plans
/// perform their write; backing off and doing nothing leave every record
/// as it was.
pub open spec fn apply_action(
    store: Map<WithdrawalKey, RecordModel>,
    a: FinalizeAction,
) -> Map<WithdrawalKey, RecordModel> {
    match a {
        FinalizeAction::SetFinalized { keys, tx } => apply_set_finalized(store, keys@, tx),
        FinalizeAction::BumpAttempts { keys } => apply_bump_attempts(store, keys@),
        FinalizeAction::BackOffOutOfFunds { .. } => store,
        FinalizeAction::Nothing => store,
    }
}

/// Bumping retry counters changes no key set, no parameters and no
/// finalization transaction, never lowers a counter, and leaves unlisted
/// records as they were.
pub proof fn lemma_bump_attempts_effects(
    store: Map<WithdrawalKey, RecordModel>,
    keys: Seq<WithdrawalKey>,
)
    ensures
        apply_bump_attempts(store, keys).dom() == store.dom(),
        forall|k: WithdrawalKey|
            store.dom().contains(k) ==> apply_bump_attempts(store, keys)[k].finalization_tx
                == store[k].finalization_tx && apply_bump_attempts(store, keys)[k].params_present
                == store[k].params_present && apply_bump_attempts(
                store,
                keys,
            )[k].unsuccessful_attempts >= store[k].unsuccessful_attempts,
        forall|k: WithdrawalKey|
            store.dom().contains(k) && !keys.contains(k) ==> apply_bump_attempts(store, keys)[k]
                == store[k],
    decreases keys.len(),
{
    if keys.len() > 0 {
        lemma_bump_attempts_effects(store, keys.drop_last());
        let s1 = apply_bump_attempts(store, keys.drop_last());
        assert(bump_one(s1, keys.last()).dom() =~= s1.dom());
        assert forall|k: WithdrawalKey|
            store.dom().contains(k) && !keys.contains(k) implies apply_bump_attempts(
            store,
            keys,
        )[k] == store[k] by {
            assert(!keys.drop_last().contains(k)) by {
                if keys.drop_last().contains(k) {
                    let i = choose|i: int|
                        0 <= i < keys.drop_last().len() && keys.drop_last()[i] == k;
                    assert(keys[i] == k);
                }
            }
            assert(keys[keys.len() - 1] != k);
        }
    }
}

/// Marking keys finalized changes no key set, no parameters and no retry
/// counter, leaves unlisted records as they were, and puts the given
/// transaction on record for every listed key the store knows.
pub proof fn lemma_set_finalized_effects(
    store: Map<WithdrawalKey, RecordModel>,
    keys: Seq<WithdrawalKey>,
    tx: TxHash,
)
    ensures
        apply_set_finalized(store, keys, tx).dom() == store.dom(),
        forall|k: WithdrawalKey|
            store.dom().contains(k) ==> apply_set_finalized(store, keys, tx)[k].params_present
                == store[k].params_present && apply_set_finalized(
                store,
                keys,
                tx,
            )[k].unsuccessful_attempts == store[k].unsuccessful_attempts,
        forall|k: WithdrawalKey|
            store.dom().contains(k) && !keys.contains(k) ==> apply_set_finalized(store, keys, tx)[k]
                == store[k],
        forall|k: WithdrawalKey|
            store.dom().contains(k) && keys.contains(k) ==> apply_set_finalized(
                store,
                keys,
                tx,
            )[k].finalization_tx == Some(tx),
    decreases keys.len(),
{
    if keys.len() > 0 {
        lemma_set_finalized_effects(store, keys.drop_last(), tx);
        let s1 = apply_set_finalized(store, keys.drop_last(), tx);
        assert(set_one_finalized(s1, keys.last(), tx).dom() =~= s1.dom());
        assert forall|k: WithdrawalKey|
            store.dom().contains(k) && !keys.contains(k) implies apply_set_finalized(
            store,
            keys,
            tx,
        )[k] == store[k] by {
            assert(!keys.drop_last().contains(k)) by {
                if keys.drop_last().contains(k) {
                    let i = choose|i: int|
                        0 <= i < keys.drop_last().len() && keys.drop_last()[i] == k;
                    assert(keys[i] == k);
                }
            }
            assert(keys[keys.len() - 1] != k);
        }
        assert forall|k: WithdrawalKey|
            store.dom().contains(k) && keys.contains(k) implies apply_set_finalized(
            store,
            keys,
            tx,
        )[k].finalization_tx == Some(tx) by {
            if keys.last() == k {
            } else {
                let i = choose|i: int| 0 <= i < keys.len() && keys[i] == k;
                assert(keys.drop_last()[i] == k);
                assert(keys.drop_last().contains(k));
            }
        }
    }
}

/// Terminal finalization: a record with a finalization transaction on
/// record is not ready, so no iteration draws it again; and an iteration's
/// storage writes, which only name keys that were ready when the page was
/// drawn, leave the terminal record byte for byte as it was — its retry
/// counter is never bumped and it is never resubmitted.
pub proof fn lemma_terminal_finalization(
    store: Map<WithdrawalKey, RecordModel>,
    k: WithdrawalKey,
    bumped: Seq<WithdrawalKey>,
    marked: Seq<WithdrawalKey>,
    tx: TxHash,
)
    requires
        is_terminal(store, k),
        forall|i: int| 0 <= i < bumped.len() ==> is_ready(store, bumped[i]),
        forall|i: int| 0 <= i < marked.len() ==> is_ready(store, marked[i]),
    ensures
        !is_ready(store, k),
        apply_set_finalized(apply_bump_attempts(store, bumped), marked, tx).dom() == store.dom(),
        apply_set_finalized(apply_bump_attempts(store, bumped), marked, tx)[k] == store[k],
        is_terminal(apply_set_finalized(apply_bump_attempts(store, bumped), marked, tx), k),
{
    let s1 = apply_bump_attempts(store, bumped);
    lemma_bump_attempts_effects(store, bumped);
    assert(!bumped.contains(k)) by {
        if bumped.contains(k) {
            let i = choose|i: int| 0 <= i < bumped.len() && bumped[i] == k;
            assert(is_ready(store, bumped[i]));
        }
    }
    assert(!marked.contains(k)) by {
        if marked.contains(k) {
            let i = choose|i: int| 0 <= i < marked.len() && marked[i] == k;
            assert(is_ready(store, marked[i]));
        }
    }
    lemma_set_finalized_effects(s1, marked, tx);
}

/// Out-of-funds restraint: the plan for an out-of-funds rejection is a
/// backoff, and a backoff writes nothing — every record, the rejected
/// batch's included, keeps its retry counter and its whole state.
pub proof fn lemma_out_of_funds_restraint(
    store: Map<WithdrawalKey, RecordModel>,
    a: FinalizeAction,
)
    requires
        a is BackOffOutOfFunds,
    ensures
        apply_action(store, a) == store,
{
}

/// Idempotence across restarts: a withdrawal was finalized on chain but
/// the record of its transaction was lost, so it is drawn again as ready.
/// Once its on-chain check answers "finalized", reconciliation marks it
/// with the zero-hash sentinel: its record becomes terminal with its retry
/// counter untouched, and it is never resubmitted — the state converges
/// without a double submission.
pub proof fn lemma_restart_convergence(
    store: Map<WithdrawalKey, RecordModel>,
    buffer: Seq<WithdrawalParams>,
    flags: Seq<bool>,
    i: int,
)
    requires
        buffer.len() == flags.len(),
        keys_distinct(buffer),
        0 <= i < buffer.len(),
        flags[i],
        store.dom().contains(buffer[i].key_spec()),
    ensures
        ({
            let s2 = apply_set_finalized(
                apply_bump_attempts(store, unsuccessful_keys_of(buffer, flags)),
                finalized_keys_of(buffer, flags),
                TxHash::zero_spec(),
            );
            let k = buffer[i].key_spec();
            &&& s2[k].finalization_tx == Some(TxHash::zero_spec())
            &&& s2[k].unsuccessful_attempts == store[k].unsuccessful_attempts
            &&& is_terminal(s2, k)
            &&& !is_ready(s2, k)
        }),
{
    let k = buffer[i].key_spec();
    lemma_reconciliation_dichotomy(buffer, flags);
    let s1 = apply_bump_attempts(store, unsuccessful_keys_of(buffer, flags));
    lemma_bump_attempts_effects(store, unsuccessful_keys_of(buffer, flags));
    lemma_set_finalized_effects(s1, finalized_keys_of(buffer, flags), TxHash::zero_spec());
}

} // verus!
