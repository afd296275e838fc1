//! Core of a withdrawal finalization service between a layer-2 rollup and its
//! settlement layer.  The library holds the decision logic of the service: the
//! gas- and fee-bounded batch packer, the triage of pre-flight simulation
//! results, the classification of submission errors, the reconciliation of
//! withdrawals that may have been finalized by a third party, and the plans
//! that the surrounding I/O shell executes against storage and the chains.

use vstd::prelude::*;

mod accumulator;
mod fetcher;
mod finalize;
mod model;
mod reconcile;
mod types;

pub use accumulator::prediction_failed;
pub use accumulator::WithdrawalsAccumulator;
pub use fetcher::attach_ids;
pub use fetcher::fetch_targets;
pub use finalize::empty_page_backoff;
pub use finalize::is_gas_required_exceeds_allowance;
pub use finalize::plan_after_mining;
pub use finalize::plan_after_submission_error;
pub use finalize::should_simulate;
pub use finalize::FinalizeAction;
pub use finalize::Finalizer;
pub use finalize::MiningOutcome;
pub use finalize::SubmissionError;
pub use model::RecordModel;
pub use reconcile::partition_reconciled;
pub use types::is_native_asset;
pub use types::keys_of;
pub use types::requests_of;
pub use types::Address;
pub use types::FinalizeRequest;
pub use types::Prediction;
pub use types::StoredWithdrawal;
pub use types::TxHash;
pub use types::WithdrawalKey;
pub use types::WithdrawalParams;

verus! {

/// A hard ceiling on the fee of one finalization transaction, in wei:
/// 0.8 ether.
pub const TX_FEE_LIMIT_WEI: u128 = 800_000_000_000_000_000;

/// How long to back off after a submission was rejected for lack of funds,
/// in seconds.
pub const OUT_OF_FUNDS_BACKOFF_SECS: u64 = 10;

/// How long either loop sleeps when storage has no new withdrawals for it,
/// in seconds.
pub const NO_NEW_WITHDRAWALS_BACKOFF_SECS: u64 = 5;

/// How many ready withdrawals one finalizer iteration draws from storage.
pub const QUERY_DB_PAGINATION_LIMIT: u64 = 50;

/// How many records missing their parameters one fetcher iteration draws.
pub const PARAMS_FETCHER_PAGE_LIMIT: u64 = 1000;

} // verus!
