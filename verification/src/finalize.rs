//! The finalizer's decisions: classifying a rejected submission, planning
//! what to write back to storage after a submission or a mining wait, and
//! the small scheduling choices of the finalizer loop.  The surrounding
//! shell performs the plans; the decisions are made here.

use vstd::prelude::*;
use vstd::string::StrSliceExecFns;

use crate::accumulator::prediction_failed;
use crate::accumulator::prediction_failed_spec;
use crate::accumulator::WithdrawalsAccumulator;
use crate::types::Prediction;
use crate::types::TxHash;
use crate::types::WithdrawalKey;
use crate::types::WithdrawalParams;
use crate::NO_NEW_WITHDRAWALS_BACKOFF_SECS;
use crate::OUT_OF_FUNDS_BACKOFF_SECS;
use crate::QUERY_DB_PAGINATION_LIMIT;
use crate::TX_FEE_LIMIT_WEI;

verus! {

/// The message prefix by which the node reports that the submitting account
/// cannot cover the transaction.
pub open spec fn out_of_funds_prefix() -> Seq<char> {
    "gas required exceeds allowance "@
}

/// Whether an error message begins with the out-of-funds prefix.
pub open spec fn is_out_of_funds_message(msg: Seq<char>) -> bool {
    &&& msg.len() >= out_of_funds_prefix().len()
    &&& msg.subrange(0, out_of_funds_prefix().len() as int) == out_of_funds_prefix()
}

/// A synchronous rejection of a batch submission, as the shell saw it.
pub enum SubmissionError {
    /// The node answered with a JSON-RPC error response.
    Rpc {
        /// The JSON-RPC error code.
        code: i64,
        /// The JSON-RPC error message.
        message: String,
    },
    /// Any other failure to send; there is no error response to classify.
    Other,
}

/// Whether a rejection means the submitting account is out of funds: a
/// JSON-RPC error response with code -32000 whose message begins
/// "gas required exceeds allowance ".
pub open spec fn is_out_of_funds_spec(e: SubmissionError) -> bool {
    match e {
        SubmissionError::Rpc { code, message } => {
            code == -32000 && is_out_of_funds_message(message@)
        },
        SubmissionError::Other => false,
    }
}

/// Tests whether an error message begins with the out-of-funds prefix.
fn message_has_out_of_funds_prefix(message: &str) -> (r: bool)
    ensures
        r == is_out_of_funds_message(message@),
{
    proof {
        reveal_strlit("gas required exceeds allowance ");
    }
    let prefix: &str = "gas required exceeds allowance ";
    let plen = prefix.unicode_len();
    let mlen = message.unicode_len();
    if mlen < plen {
        return false;
    }
    let mut i: usize = 0;
    while i < plen
        invariant
            prefix@ == out_of_funds_prefix(),
            plen == out_of_funds_prefix().len(),
            mlen == message@.len(),
            mlen >= plen,
            i <= plen,
            forall|j: int| 0 <= j < i ==> message@[j] == out_of_funds_prefix()[j],
        decreases plen - i,
    {
        let mc = message.get_char(i);
        let pc = prefix.get_char(i);
        if mc != pc {
            proof {
                assert(message@.subrange(0, out_of_funds_prefix().len() as int)[i as int]
                    == message@[i as int]);
            }
            return false;
        }
        i = i + 1;
    }
    proof {
        assert(message@.subrange(0, out_of_funds_prefix().len() as int) =~= out_of_funds_prefix());
    }
    true
}

/// Classifies a rejected submission: true exactly when the node reported
/// code -32000 with a message beginning "gas required exceeds allowance ",
/// the out-of-funds case.
pub fn is_gas_required_exceeds_allowance(e: &SubmissionError) -> (r: bool)
    ensures
        r == is_out_of_funds_spec(*e),
{
    match e {
        SubmissionError::Rpc { code, message } => {
            if *code == -32000 {
                message_has_out_of_funds_prefix(message.as_str())
            } else {
                false
            }
        },
        SubmissionError::Other => false,
    }
}

/// What a finalizer iteration asks the shell to do to storage and to the
/// metrics after a submission attempt.
pub enum FinalizeAction {
    /// Mark every listed key finalized in the given transaction.
    SetFinalized {
        /// The keys of the batch, in batch order.
        keys: Vec<WithdrawalKey>,
        /// The transaction the batch was mined in.
        tx: TxHash,
    },
    /// Bump the retry counter of every listed key.
    BumpAttempts {
        /// The keys of the batch, in batch order.
        keys: Vec<WithdrawalKey>,
    },
    /// Count the batch against the low-gas metric and back off; no record
    /// is touched.
    BackOffOutOfFunds {
        /// How many withdrawals the rejected batch held.
        affected: usize,
        /// How long to sleep before the next attempt, in seconds.
        backoff_secs: u64,
    },
    /// Leave storage untouched.
    Nothing,
}

/// Plans the response to a synchronous submission rejection.  An
/// out-of-funds rejection is the service's failure, not the withdrawals':
/// the batch is counted against the low-gas metric and the loop backs off,
/// with no retry counter bumped.  Any other rejection bumps the retry
/// counter of every key of the batch.
pub fn plan_after_submission_error(keys: Vec<WithdrawalKey>, error: &SubmissionError) -> (a:
    FinalizeAction)
    ensures
        is_out_of_funds_spec(*error) ==> a == (FinalizeAction::BackOffOutOfFunds {
            affected: keys@.len() as usize,
            backoff_secs: OUT_OF_FUNDS_BACKOFF_SECS,
        }),
        !is_out_of_funds_spec(*error) ==> a == (FinalizeAction::BumpAttempts { keys }),
{
    if is_gas_required_exceeds_allowance(error) {
        let affected = keys.len();
        FinalizeAction::BackOffOutOfFunds { affected, backoff_secs: OUT_OF_FUNDS_BACKOFF_SECS }
    } else {
        FinalizeAction::BumpAttempts { keys }
    }
}

/// How the wait for a submitted transaction ended, as the shell saw it.
pub enum MiningOutcome {
    /// The transaction was mined and a receipt came back.
    Mined {
        /// The hash of the mined transaction.
        tx: TxHash,
    },
    /// The wait resolved without a receipt.
    NoReceipt,
    /// The wait itself failed; the transaction is already in the pool.
    WaitFailed,
}

/// Plans the response to the end of the mining wait.  Only a mined
/// transaction with a receipt writes anything back: every key of the batch
/// is marked finalized in that transaction.  A wait that resolved without a
/// receipt, or failed, touches no record and bumps no counter.
pub fn plan_after_mining(keys: Vec<WithdrawalKey>, outcome: &MiningOutcome) -> (a: FinalizeAction)
    ensures
        match *outcome {
            MiningOutcome::Mined { tx } => a == (FinalizeAction::SetFinalized { keys, tx }),
            MiningOutcome::NoReceipt => a == FinalizeAction::Nothing,
            MiningOutcome::WaitFailed => a == FinalizeAction::Nothing,
        },
{
    match outcome {
        MiningOutcome::Mined { tx } => FinalizeAction::SetFinalized { keys, tx: *tx },
        MiningOutcome::NoReceipt => FinalizeAction::Nothing,
        MiningOutcome::WaitFailed => FinalizeAction::Nothing,
    }
}

/// The failing entries of a prediction list, in order.
pub open spec fn failures_of(ps: Seq<Prediction>, gas_limit: u128) -> Seq<Prediction>
    decreases ps.len(),
{
    if ps.len() == 0 {
        Seq::empty()
    } else {
        let rest = failures_of(ps.drop_last(), gas_limit);
        if prediction_failed_spec(ps.last(), gas_limit) {
            rest.push(ps.last())
        } else {
            rest
        }
    }
}

/// The per-loop state of the finalizer: the configured budgets and limits,
/// and the buffer of withdrawals deferred to reconciliation.
pub struct Finalizer {
    /// The gas allowance granted to each withdrawal of a batch.
    pub one_withdrawal_gas_limit: u128,
    /// The most gas one batch may be allowed.
    pub batch_finalization_gas_limit: u128,
    /// Withdrawals this iteration deferred for reconciliation.
    pub unsuccessful: Vec<WithdrawalParams>,
    /// How long to sleep when storage has no ready withdrawals, in seconds.
    pub no_new_withdrawals_backoff_secs: u64,
    /// How many ready withdrawals one iteration draws from storage.
    pub query_db_pagination_limit: u64,
    /// The most one finalization transaction may cost, in wei.
    pub tx_fee_limit: u128,
}

impl Finalizer {
    /// Creates a finalizer with the given per-entry and per-batch gas
    /// budgets, the configured fee ceiling of 0.8 ether, an empty
    /// reconciliation buffer, and the standard backoff and pagination
    /// settings.
    pub fn new(one_withdrawal_gas_limit: u128, batch_finalization_gas_limit: u128) -> (r:
        Finalizer)
        ensures
            r.one_withdrawal_gas_limit == one_withdrawal_gas_limit,
            r.batch_finalization_gas_limit == batch_finalization_gas_limit,
            r.unsuccessful@ == Seq::<WithdrawalParams>::empty(),
            r.no_new_withdrawals_backoff_secs == NO_NEW_WITHDRAWALS_BACKOFF_SECS,
            r.query_db_pagination_limit == QUERY_DB_PAGINATION_LIMIT,
            r.tx_fee_limit == TX_FEE_LIMIT_WEI,
    {
        let r = Finalizer {
            one_withdrawal_gas_limit,
            batch_finalization_gas_limit,
            unsuccessful: Vec::new(),
            no_new_withdrawals_backoff_secs: NO_NEW_WITHDRAWALS_BACKOFF_SECS,
            query_db_pagination_limit: QUERY_DB_PAGINATION_LIMIT,
            tx_fee_limit: TX_FEE_LIMIT_WEI,
        };
        proof {
            assert(r.unsuccessful@ =~= Seq::<WithdrawalParams>::empty());
        }
        r
    }

    /// Creates a fresh accumulator for this finalizer's budgets at the
    /// given gas price.
    pub fn new_accumulator(&self, gas_price: u128) -> (r: WithdrawalsAccumulator)
        requires
            gas_price * self.batch_finalization_gas_limit <= u128::MAX,
        ensures
            r.wf(),
            r.price() == gas_price,
            r.fee_limit() == self.tx_fee_limit,
            r.gas_budget() == self.batch_finalization_gas_limit,
            r.per_entry_gas() == self.one_withdrawal_gas_limit,
            r.entries() == Seq::<WithdrawalParams>::empty(),
            r.charged_gas() == 0,
    {
        WithdrawalsAccumulator::new(
            gas_price,
            self.tx_fee_limit,
            self.batch_finalization_gas_limit,
            self.one_withdrawal_gas_limit,
        )
    }

    /// Sifts a simulation answer: returns the entries predicted to fail
    /// under this finalizer's per-entry gas allowance, in order.  The
    /// result is empty exactly when every entry is predicted to succeed.
    pub fn predict_fails(&self, predictions: &Vec<Prediction>) -> (r: Vec<Prediction>)
        ensures
            r@ == failures_of(predictions@, self.one_withdrawal_gas_limit),
            (r@.len() == 0) <==> (forall|i: int|
                0 <= i < predictions@.len() ==> !prediction_failed_spec(
                    predictions@[i],
                    self.one_withdrawal_gas_limit,
                )),
    {
        let g = self.one_withdrawal_gas_limit;
        let mut r: Vec<Prediction> = Vec::new();
        let mut i: usize = 0;
        proof {
            assert(r@ =~= failures_of(predictions@.take(0), g));
        }
        while i < predictions.len()
            invariant
                i <= predictions@.len(),
                g == self.one_withdrawal_gas_limit,
                r@ == failures_of(predictions@.take(i as int), g),
                (r@.len() == 0) <==> (forall|j: int|
                    0 <= j < i ==> !prediction_failed_spec(predictions@[j], g)),
            decreases predictions@.len() - i,
        {
            proof {
                assert(predictions@.take(i + 1).drop_last() =~= predictions@.take(i as int));
                assert(predictions@.take(i + 1).last() == predictions@[i as int]);
            }
            if prediction_failed(&predictions[i], g) {
                r.push(predictions[i]);
            }
            i = i + 1;
        }
        proof {
            assert(predictions@.take(i as int) =~= predictions@);
        }
        r
    }

    /// Parks entries removed from the accumulator in the reconciliation
    /// buffer, keeping their order after what the buffer already holds.
    pub fn park_unsuccessful(&mut self, removed: &mut Vec<WithdrawalParams>)
        ensures
            final(self).unsuccessful@ == old(self).unsuccessful@ + old(removed)@,
            final(removed)@.len() == 0,
            final(self).one_withdrawal_gas_limit == old(self).one_withdrawal_gas_limit,
            final(self).batch_finalization_gas_limit == old(self).batch_finalization_gas_limit,
            final(self).no_new_withdrawals_backoff_secs == old(
                self,
            ).no_new_withdrawals_backoff_secs,
            final(self).query_db_pagination_limit == old(self).query_db_pagination_limit,
            final(self).tx_fee_limit == old(self).tx_fee_limit,
    {
        self.unsuccessful.append(removed);
    }

    /// Borrows the reconciliation buffer, in parking order.
    pub fn unsuccessful(&self) -> (r: &Vec<WithdrawalParams>)
        ensures
            r@ == self.unsuccessful@,
    {
        &self.unsuccessful
    }
}

/// Whether the finalizer simulates and closes the current batch now: it
/// does when the accumulator reports a full batch, and also on the last
/// withdrawal of the page, full batch or not.
pub fn should_simulate(accumulator: &WithdrawalsAccumulator, more_input: bool) -> (r: bool)
    requires
        accumulator.wf(),
    ensures
        r == (accumulator.ready_spec() || !more_input),
{
    accumulator.ready_to_finalize() || !more_input
}

/// How long a loop sleeps after drawing a page of the given size: the
/// no-new-withdrawals backoff on an empty page, else nothing.
pub fn empty_page_backoff(fetched: usize) -> (r: Option<u64>)
    ensures
        fetched == 0 ==> r == Some(NO_NEW_WITHDRAWALS_BACKOFF_SECS),
        fetched != 0 ==> r == Option::<u64>::None,
{
    if fetched == 0 {
        Some(NO_NEW_WITHDRAWALS_BACKOFF_SECS)
    } else {
        None
    }
}

} // verus!
