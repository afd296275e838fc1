//! Plain data that the finalization core works on: hashes, addresses,
//! withdrawal records, simulation predictions and finalize-call requests.

use vstd::prelude::*;

verus! {

/// A 256-bit transaction hash, held as four 64-bit words, most significant
/// first.
#[derive(Clone, Copy, Debug, PartialEq, Eq, Structural)]
pub struct TxHash {
    /// Bits 255..192.
    pub w0: u64,
    /// Bits 191..128.
    pub w1: u64,
    /// Bits 127..64.
    pub w2: u64,
    /// Bits 63..0.
    pub w3: u64,
}

impl TxHash {
    /// The all-zero hash: the sentinel for "known finalized, transaction of
    /// record unknown".
    pub open spec fn zero_spec() -> TxHash {
        TxHash { w0: 0, w1: 0, w2: 0, w3: 0 }
    }

    /// Builds the all-zero sentinel hash.
    pub fn zero() -> (r: TxHash)
        ensures
            r == TxHash::zero_spec(),
    {
        TxHash { w0: 0, w1: 0, w2: 0, w3: 0 }
    }

    /// Whether this hash is the all-zero sentinel.
    pub open spec fn is_zero_spec(&self) -> bool {
        *self == TxHash::zero_spec()
    }

    /// Tests for the all-zero sentinel.
    pub fn is_zero(&self) -> (r: bool)
        ensures
            r == self.is_zero_spec(),
    {
        self.w0 == 0 && self.w1 == 0 && self.w2 == 0 && self.w3 == 0
    }
}

/// A 160-bit account address, held as two 64-bit words and one 32-bit word,
/// most significant first.
#[derive(Clone, Copy, Debug, PartialEq, Eq, Structural)]
pub struct Address {
    /// Bits 159..96.
    pub a0: u64,
    /// Bits 95..32.
    pub a1: u64,
    /// Bits 31..0.
    pub a2: u32,
}

impl Address {
    /// The fixed system address under which the rollup books its native
    /// asset; a withdrawal sent by it is a native-asset withdrawal.
    pub open spec fn native_token_spec() -> Address {
        Address { a0: 0, a1: 0, a2: 0x800a }
    }

    /// Builds the native-asset system address.
    pub fn native_token() -> (r: Address)
        ensures
            r == Address::native_token_spec(),
    {
        Address { a0: 0, a1: 0, a2: 0x800a }
    }
}

/// Whether a sender address marks a native-asset withdrawal rather than a
/// token one.  The answer selects which settlement-layer contract is asked
/// "is this withdrawal finalized?".
pub open spec fn is_native_asset_spec(sender: Address) -> bool {
    sender == Address::native_token_spec()
}

/// Tests whether a sender address marks a native-asset withdrawal.
pub fn is_native_asset(sender: Address) -> (r: bool)
    ensures
        r == is_native_asset_spec(sender),
{
    sender == Address::native_token()
}

/// The identity of a withdrawal: the layer-2 transaction that carried it and
/// the index of its event within that transaction.
#[derive(Clone, Copy, Debug, PartialEq, Eq, Structural)]
pub struct WithdrawalKey {
    /// The layer-2 transaction hash.
    pub tx_hash: TxHash,
    /// The index of the withdrawal event inside that transaction.
    pub event_index_in_tx: u32,
}

/// A withdrawal record as drawn from storage once its finalization
/// parameters are present: everything the settlement-layer finalizer
/// contract needs, plus the record's storage identity.
pub struct WithdrawalParams {
    /// Monotonic identifier assigned by storage.
    pub id: u64,
    /// The layer-2 transaction hash of the withdrawal.
    pub tx_hash: TxHash,
    /// The index of the withdrawal event inside that transaction.
    pub event_index_in_tx: u32,
    /// The layer-2 address that originated the withdrawal.
    pub sender: Address,
    /// The settlement-layer batch in which the withdrawal was included.
    pub l1_batch_number: u64,
    /// The index within the layer-2 to layer-1 message tree.
    pub l2_message_index: u64,
    /// The position of the carrying transaction in its block.
    pub l2_tx_number_in_block: u32,
    /// The opaque message payload the finalizer contract consumes.
    pub message: Vec<u8>,
    /// The Merkle proof of the message's inclusion.
    pub merkle_proof: Vec<TxHash>,
}

impl WithdrawalParams {
    /// The withdrawal's identity.
    pub open spec fn key_spec(&self) -> WithdrawalKey {
        WithdrawalKey { tx_hash: self.tx_hash, event_index_in_tx: self.event_index_in_tx }
    }

    /// Returns the withdrawal's identity.
    pub fn key(&self) -> (k: WithdrawalKey)
        ensures
            k == self.key_spec(),
    {
        WithdrawalKey { tx_hash: self.tx_hash, event_index_in_tx: self.event_index_in_tx }
    }
}

/// A raw withdrawal record as the watcher left it in storage: its identity
/// and storage id, with the finalization parameters still missing.
#[derive(Clone, Copy, Debug, PartialEq, Eq, Structural)]
pub struct StoredWithdrawal {
    /// Monotonic identifier assigned by storage.
    pub id: u64,
    /// The withdrawal's identity.
    pub key: WithdrawalKey,
}

/// One entry of the ordered answer of a pre-flight simulation of the
/// finalizer contract: whether the entry would succeed and how much gas it
/// would take.
#[derive(Clone, Copy, Debug, PartialEq, Eq, Structural)]
pub struct Prediction {
    /// Whether the simulated finalization of this entry succeeded.
    pub success: bool,
    /// The gas the simulated finalization took.
    pub gas: u128,
}

/// One entry of the batch handed to the finalizer contract, carrying the
/// per-entry gas allowance.
pub struct FinalizeRequest {
    /// The withdrawal's identity.
    pub key: WithdrawalKey,
    /// The settlement-layer batch in which the withdrawal was included.
    pub l1_batch_number: u64,
    /// The index within the layer-2 to layer-1 message tree.
    pub l2_message_index: u64,
    /// The position of the carrying transaction in its block.
    pub l2_tx_number_in_block: u32,
    /// The opaque message payload the finalizer contract consumes.
    pub message: Vec<u8>,
    /// The Merkle proof of the message's inclusion.
    pub merkle_proof: Vec<TxHash>,
    /// Whether the withdrawal moves the rollup's native asset.
    pub is_eth: bool,
    /// The gas allowance granted to this entry.
    pub gas_limit: u128,
}

/// Whether a request carries exactly the data of a withdrawal record under
/// a given per-entry gas allowance.
pub open spec fn is_request_of(r: FinalizeRequest, w: WithdrawalParams, gas_limit: u128) -> bool {
    &&& r.key == w.key_spec()
    &&& r.l1_batch_number == w.l1_batch_number
    &&& r.l2_message_index == w.l2_message_index
    &&& r.l2_tx_number_in_block == w.l2_tx_number_in_block
    &&& r.message@ == w.message@
    &&& r.merkle_proof@ == w.merkle_proof@
    &&& r.is_eth == is_native_asset_spec(w.sender)
    &&& r.gas_limit == gas_limit
}

/// Copies a byte payload.
fn clone_bytes(v: &Vec<u8>) -> (r: Vec<u8>)
    ensures
        r@ == v@,
{
    let mut r: Vec<u8> = Vec::new();
    let mut i: usize = 0;
    while i < v.len()
        invariant
            i <= v@.len(),
            r@ == v@.subrange(0, i as int),
        decreases v@.len() - i,
    {
        r.push(v[i]);
        i = i + 1;
        proof {
            assert(r@ =~= v@.subrange(0, i as int));
        }
    }
    proof {
        assert(r@ =~= v@);
    }
    r
}

/// Copies a list of hashes.
fn clone_hashes(v: &Vec<TxHash>) -> (r: Vec<TxHash>)
    ensures
        r@ == v@,
{
    let mut r: Vec<TxHash> = Vec::new();
    let mut i: usize = 0;
    while i < v.len()
        invariant
            i <= v@.len(),
            r@ == v@.subrange(0, i as int),
        decreases v@.len() - i,
    {
        r.push(v[i]);
        i = i + 1;
        proof {
            assert(r@ =~= v@.subrange(0, i as int));
        }
    }
    proof {
        assert(r@ =~= v@);
    }
    r
}

/// Builds the requests for a batch, granting every entry the same gas
/// allowance.  The result is aligned positionally with the batch.
pub fn requests_of(ws: &Vec<WithdrawalParams>, gas_limit: u128) -> (r: Vec<FinalizeRequest>)
    ensures
        r@.len() == ws@.len(),
        forall|i: int| 0 <= i < ws@.len() ==> is_request_of(r@[i], ws@[i], gas_limit),
{
    let mut r: Vec<FinalizeRequest> = Vec::new();
    let mut i: usize = 0;
    while i < ws.len()
        invariant
            i <= ws@.len(),
            r@.len() == i,
            forall|j: int| 0 <= j < i ==> is_request_of(r@[j], ws@[j], gas_limit),
        decreases ws@.len() - i,
    {
        let w = &ws[i];
        let req = FinalizeRequest {
            key: w.key(),
            l1_batch_number: w.l1_batch_number,
            l2_message_index: w.l2_message_index,
            l2_tx_number_in_block: w.l2_tx_number_in_block,
            message: clone_bytes(&w.message),
            merkle_proof: clone_hashes(&w.merkle_proof),
            is_eth: is_native_asset(w.sender),
            gas_limit: gas_limit,
        };
        r.push(req);
        i = i + 1;
    }
    r
}

/// Lists the identities of a batch, in batch order.
pub fn keys_of(ws: &Vec<WithdrawalParams>) -> (r: Vec<WithdrawalKey>)
    ensures
        r@.len() == ws@.len(),
        forall|i: int| 0 <= i < ws@.len() ==> r@[i] == ws@[i].key_spec(),
{
    let mut r: Vec<WithdrawalKey> = Vec::new();
    let mut i: usize = 0;
    while i < ws.len()
        invariant
            i <= ws@.len(),
            r@.len() == i,
            forall|j: int| 0 <= j < i ==> r@[j] == ws@[j].key_spec(),
        decreases ws@.len() - i,
    {
        r.push(ws[i].key());
        i = i + 1;
    }
    r
}

} // verus!
