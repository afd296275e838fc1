//! The batch packer: admits withdrawals one at a time under a gas budget and
//! a fee budget, and removes the entries that a pre-flight simulation
//! predicted to fail.

use vstd::prelude::*;

use crate::types::Prediction;
use crate::types::WithdrawalParams;

verus! {

/// Whether a simulation prediction counts as a failure under a per-entry
/// gas allowance: the simulated call failed, or it took more gas than one
/// entry is granted.
pub open spec fn prediction_failed_spec(p: Prediction, gas_limit: u128) -> bool {
    !p.success || p.gas > gas_limit
}

/// Tests whether a simulation prediction counts as a failure.
pub fn prediction_failed(p: &Prediction, gas_limit: u128) -> (r: bool)
    ensures
        r == prediction_failed_spec(*p, gas_limit),
{
    !p.success || p.gas > gas_limit
}

/// The entries of a batch that survive a round of predictions: entry `i` is
/// kept exactly when `ps[i]` is no failure, and survivors keep their
/// relative order.
pub open spec fn survivors_of(
    ws: Seq<WithdrawalParams>,
    ps: Seq<Prediction>,
    gas_limit: u128,
) -> Seq<WithdrawalParams>
    decreases ws.len(),
{
    if ws.len() == 0 {
        Seq::empty()
    } else {
        let rest = survivors_of(ws.drop_last(), ps.drop_last(), gas_limit);
        if prediction_failed_spec(ps.last(), gas_limit) {
            rest
        } else {
            rest.push(ws.last())
        }
    }
}

/// The entries of a batch that a round of predictions removes: entry `i` is
/// taken exactly when `ps[i]` is a failure, in batch order.
pub open spec fn removed_of(
    ws: Seq<WithdrawalParams>,
    ps: Seq<Prediction>,
    gas_limit: u128,
) -> Seq<WithdrawalParams>
    decreases ws.len(),
{
    if ws.len() == 0 {
        Seq::empty()
    } else {
        let rest = removed_of(ws.drop_last(), ps.drop_last(), gas_limit);
        if prediction_failed_spec(ps.last(), gas_limit) {
            rest.push(ws.last())
        } else {
            rest
        }
    }
}

/// Interleaves survivors and removed entries back by the failure flags:
/// position `i` is drawn from the removed entries when `ps[i]` is a
/// failure, else from the survivors.
pub open spec fn merge_by(
    sv: Seq<WithdrawalParams>,
    rm: Seq<WithdrawalParams>,
    ps: Seq<Prediction>,
    gas_limit: u128,
) -> Seq<WithdrawalParams>
    decreases ps.len(),
{
    if ps.len() == 0 {
        Seq::empty()
    } else if prediction_failed_spec(ps.last(), gas_limit) {
        merge_by(sv, rm.drop_last(), ps.drop_last(), gas_limit).push(rm.last())
    } else {
        merge_by(sv.drop_last(), rm, ps.drop_last(), gas_limit).push(sv.last())
    }
}

/// Positional alignment: a round of predictions splits a batch into
/// survivors and removed entries without loss and without reordering —
/// merging the two lists back by the failure flags yields the batch again,
/// so the survivors are exactly the non-failing entries in batch order and
/// the removed are exactly the failing ones in batch order.
pub proof fn lemma_positional_alignment(ws: Seq<WithdrawalParams>, ps: Seq<Prediction>, gas_limit: u128)
    requires
        ws.len() == ps.len(),
    ensures
        survivors_of(ws, ps, gas_limit).len() + removed_of(ws, ps, gas_limit).len() == ws.len(),
        merge_by(survivors_of(ws, ps, gas_limit), removed_of(ws, ps, gas_limit), ps, gas_limit)
            == ws,
    decreases ws.len(),
{
    if ws.len() == 0 {
        assert(merge_by(
            survivors_of(ws, ps, gas_limit),
            removed_of(ws, ps, gas_limit),
            ps,
            gas_limit,
        ) =~= ws);
    } else {
        let wsp = ws.drop_last();
        let psp = ps.drop_last();
        lemma_positional_alignment(wsp, psp, gas_limit);
        let sv = survivors_of(ws, ps, gas_limit);
        let rm = removed_of(ws, ps, gas_limit);
        if prediction_failed_spec(ps.last(), gas_limit) {
            assert(rm.drop_last() =~= removed_of(wsp, psp, gas_limit));
            assert(merge_by(sv, rm, ps, gas_limit) =~= ws);
        } else {
            assert(sv.drop_last() =~= survivors_of(wsp, psp, gas_limit));
            assert(merge_by(sv, rm, ps, gas_limit) =~= ws);
        }
    }
}

/// A clean simulation changes nothing: when no prediction is a failure,
/// every entry survives in place and nothing is removed, so a batch is
/// submitted exactly as it was packed.
pub proof fn lemma_clean_predictions_keep_batch(
    ws: Seq<WithdrawalParams>,
    ps: Seq<Prediction>,
    gas_limit: u128,
)
    requires
        ws.len() == ps.len(),
        forall|i: int| 0 <= i < ps.len() ==> !prediction_failed_spec(ps[i], gas_limit),
    ensures
        survivors_of(ws, ps, gas_limit) == ws,
        removed_of(ws, ps, gas_limit) == Seq::<WithdrawalParams>::empty(),
    decreases ws.len(),
{
    if ws.len() == 0 {
        assert(survivors_of(ws, ps, gas_limit) =~= ws);
        assert(removed_of(ws, ps, gas_limit) =~= Seq::<WithdrawalParams>::empty());
    } else {
        assert(!prediction_failed_spec(ps[ps.len() - 1], gas_limit));
        lemma_clean_predictions_keep_batch(ws.drop_last(), ps.drop_last(), gas_limit);
        assert(survivors_of(ws, ps, gas_limit) =~= ws);
    }
}

/// Packs withdrawals into one batch under two budgets at a fixed gas price:
/// the batch's gas allowances must fit the gas budget, and their cost at
/// that price must fit the fee budget.
pub struct WithdrawalsAccumulator {
    /// The gas price the batch is packed under, in wei.
    pub gas_price: u128,
    /// The fee budget: the most this batch may cost, in wei.
    pub tx_fee_limit: u128,
    /// The gas budget: the most gas one batch may be allowed.
    pub batch_finalization_gas_limit: u128,
    /// The gas allowance granted to each entry.
    pub one_withdrawal_gas_limit: u128,
    /// The entries packed so far, in admission order.
    pub withdrawals: Vec<WithdrawalParams>,
    /// The gas allowed to the entries packed so far.
    pub total_gas: u128,
}

impl WithdrawalsAccumulator {
    /// The gas price the batch is being packed under, in wei.
    pub open spec fn price(&self) -> u128 {
        self.gas_price
    }

    /// The fee budget: the most this batch may cost, in wei.
    pub open spec fn fee_limit(&self) -> u128 {
        self.tx_fee_limit
    }

    /// The gas budget: the most gas one batch may be allowed.
    pub open spec fn gas_budget(&self) -> u128 {
        self.batch_finalization_gas_limit
    }

    /// The gas allowance granted to each entry.
    pub open spec fn per_entry_gas(&self) -> u128 {
        self.one_withdrawal_gas_limit
    }

    /// The entries packed so far, in admission order.
    pub open spec fn entries(&self) -> Seq<WithdrawalParams> {
        self.withdrawals@
    }

    /// The gas allowed to the entries packed so far.
    pub open spec fn charged_gas(&self) -> u128 {
        self.total_gas
    }

    /// Well-formedness: the charged gas is the entry count times the
    /// per-entry allowance, and the fee of a full batch is representable,
    /// so packing arithmetic cannot overflow.
    pub open spec fn wf(&self) -> bool {
        &&& self.total_gas == self.withdrawals@.len() * self.one_withdrawal_gas_limit
        &&& self.gas_price * self.batch_finalization_gas_limit <= u128::MAX
    }

    /// Both budgets hold of the current batch.
    pub open spec fn within_budget(&self) -> bool {
        &&& self.entries().len() * self.per_entry_gas() <= self.gas_budget()
        &&& self.price() * (self.entries().len() * self.per_entry_gas()) <= self.fee_limit()
    }

    /// Creates an empty accumulator for the given gas price and budgets.
    pub fn new(
        gas_price: u128,
        tx_fee_limit: u128,
        batch_finalization_gas_limit: u128,
        one_withdrawal_gas_limit: u128,
    ) -> (r: WithdrawalsAccumulator)
        requires
            gas_price * batch_finalization_gas_limit <= u128::MAX,
        ensures
            r.wf(),
            r.price() == gas_price,
            r.fee_limit() == tx_fee_limit,
            r.gas_budget() == batch_finalization_gas_limit,
            r.per_entry_gas() == one_withdrawal_gas_limit,
            r.entries() == Seq::<WithdrawalParams>::empty(),
            r.charged_gas() == 0,
    {
        let r = WithdrawalsAccumulator {
            gas_price,
            tx_fee_limit,
            batch_finalization_gas_limit,
            one_withdrawal_gas_limit,
            withdrawals: Vec::new(),
            total_gas: 0,
        };
        proof {
            assert(r.entries() =~= Seq::<WithdrawalParams>::empty());
        }
        r
    }

    /// Admits one withdrawal, charging it the per-entry gas allowance.  A
    /// batch grown only while `ready_to_finalize` was false stays within
    /// both budgets.
    pub fn add_withdrawal(&mut self, w: WithdrawalParams)
        requires
            old(self).wf(),
            old(self).charged_gas() + old(self).per_entry_gas() <= u128::MAX,
        ensures
            final(self).wf(),
            final(self).entries() == old(self).entries().push(w),
            final(self).charged_gas() == old(self).charged_gas() + old(self).per_entry_gas(),
            final(self).price() == old(self).price(),
            final(self).fee_limit() == old(self).fee_limit(),
            final(self).gas_budget() == old(self).gas_budget(),
            final(self).per_entry_gas() == old(self).per_entry_gas(),
            !old(self).ready_spec() ==> final(self).within_budget(),
    {
        proof {
            let n = old(self).withdrawals@.len();
            let g = old(self).one_withdrawal_gas_limit;
            assert((n + 1) * g == n * g + g) by (nonlinear_arith);
        }
        self.withdrawals.push(w);
        self.total_gas = self.total_gas + self.one_withdrawal_gas_limit;
    }

    /// Whether admitting one more withdrawal would breach the gas budget or
    /// the fee budget.
    pub open spec fn ready_spec(&self) -> bool {
        ||| self.charged_gas() + self.per_entry_gas() > self.gas_budget()
        ||| self.price() * (self.charged_gas() + self.per_entry_gas()) > self.fee_limit()
    }

    /// Reports whether the batch is full: one more withdrawal would breach
    /// a budget.
    pub fn ready_to_finalize(&self) -> (r: bool)
        requires
            self.wf(),
        ensures
            r == self.ready_spec(),
    {
        if self.total_gas > u128::MAX - self.one_withdrawal_gas_limit {
            return true;
        }
        let next_gas = self.total_gas + self.one_withdrawal_gas_limit;
        if next_gas > self.batch_finalization_gas_limit {
            return true;
        }
        proof {
            let p = self.gas_price;
            let b = self.batch_finalization_gas_limit;
            let n = next_gas;
            assert(p * n <= p * b) by (nonlinear_arith)
                requires
                    n <= b,
                    p >= 0,
            ;
        }
        self.gas_price * next_gas > self.tx_fee_limit
    }

    /// Borrows the current batch, in admission order.
    pub fn withdrawals(&self) -> (r: &Vec<WithdrawalParams>)
        ensures
            r@ == self.entries(),
    {
        &self.withdrawals
    }

    /// Consumes and returns the batch, leaving the accumulator empty under
    /// the same price and budgets.
    pub fn take_withdrawals(&mut self) -> (r: Vec<WithdrawalParams>)
        requires
            old(self).wf(),
        ensures
            final(self).wf(),
            r@ == old(self).entries(),
            final(self).entries() == Seq::<WithdrawalParams>::empty(),
            final(self).charged_gas() == 0,
            final(self).price() == old(self).price(),
            final(self).fee_limit() == old(self).fee_limit(),
            final(self).gas_budget() == old(self).gas_budget(),
            final(self).per_entry_gas() == old(self).per_entry_gas(),
    {
        let mut taken: Vec<WithdrawalParams> = Vec::new();
        std::mem::swap(&mut taken, &mut self.withdrawals);
        self.total_gas = 0;
        proof {
            assert(self.entries() =~= Seq::<WithdrawalParams>::empty());
        }
        taken
    }

    /// Removes the entries whose prediction failed and returns them in
    /// batch order; the survivors stay, in batch order, and the charged gas
    /// shrinks to match.  The prediction list is aligned positionally with
    /// the batch.
    pub fn remove_unsuccessful(&mut self, predictions: &Vec<Prediction>) -> (removed: Vec<
        WithdrawalParams,
    >)
        requires
            old(self).wf(),
            predictions@.len() == old(self).entries().len(),
        ensures
            final(self).wf(),
            final(self).entries() == survivors_of(
                old(self).entries(),
                predictions@,
                old(self).per_entry_gas(),
            ),
            removed@ == removed_of(old(self).entries(), predictions@, old(self).per_entry_gas()),
            old(self).within_budget() ==> final(self).within_budget(),
            final(self).price() == old(self).price(),
            final(self).fee_limit() == old(self).fee_limit(),
            final(self).gas_budget() == old(self).gas_budget(),
            final(self).per_entry_gas() == old(self).per_entry_gas(),
    {
        let mut rest: Vec<WithdrawalParams> = Vec::new();
        std::mem::swap(&mut rest, &mut self.withdrawals);
        self.total_gas = 0;
        let ghost old_seq = rest@;
        let ghost old_total = old(self).total_gas;
        let g = self.one_withdrawal_gas_limit;
        let total = rest.len();
        let mut removed: Vec<WithdrawalParams> = Vec::new();
        let mut i: usize = 0;
        proof {
            assert(old_seq.len() == total);
            assert(self.entries() =~= survivors_of(old_seq.take(0), predictions@.take(0), g));
            assert(removed@ =~= removed_of(old_seq.take(0), predictions@.take(0), g));
        }
        while rest.len() > 0
            invariant
                i + rest@.len() == old_seq.len(),
                old_seq.len() == total,
                predictions@.len() == old_seq.len(),
                rest@ == old_seq.subrange(i as int, old_seq.len() as int),
                self.withdrawals@ == survivors_of(old_seq.take(i as int), predictions@.take(i as int), g),
                removed@ == removed_of(old_seq.take(i as int), predictions@.take(i as int), g),
                self.withdrawals@.len() <= i,
                self.total_gas == self.withdrawals@.len() * g,
                old_total == old_seq.len() * g,
                self.one_withdrawal_gas_limit == g,
                self.gas_price == old(self).gas_price,
                self.tx_fee_limit == old(self).tx_fee_limit,
                self.batch_finalization_gas_limit == old(self).batch_finalization_gas_limit,
                self.gas_price * self.batch_finalization_gas_limit <= u128::MAX,
            decreases rest@.len(),
        {
            let w = rest.remove(0);
            let ghost pre_rest = rest@;
            proof {
                assert(old_seq.take(i + 1).drop_last() =~= old_seq.take(i as int));
                assert(predictions@.take(i + 1).drop_last() =~= predictions@.take(i as int));
                assert(old_seq.take(i + 1).last() == old_seq[i as int]);
                assert(rest@ =~= old_seq.subrange(i + 1, old_seq.len() as int));
            }
            if prediction_failed(&predictions[i], g) {
                removed.push(w);
            } else {
                proof {
                    let n = self.withdrawals@.len();
                    let m = old_seq.len();
                    let gg = g as int;
                    assert((n + 1) * gg == n * gg + gg) by (nonlinear_arith);
                    assert((n + 1) * gg <= m * gg) by (nonlinear_arith)
                        requires
                            n + 1 <= m,
                            gg >= 0,
                    ;
                }
                self.withdrawals.push(w);
                self.total_gas = self.total_gas + g;
            }
            i = i + 1;
        }
        proof {
            assert(old_seq.take(i as int) =~= old_seq);
            if old(self).within_budget() {
                let n = self.withdrawals@.len();
                let m = old_seq.len();
                let gg = g as int;
                let p = self.gas_price as int;
                assert(n * gg <= m * gg) by (nonlinear_arith)
                    requires
                        n <= m,
                        gg >= 0,
                ;
                assert(p * (n * gg) <= p * (m * gg)) by (nonlinear_arith)
                    requires
                        n * gg <= m * gg,
                        p >= 0,
                ;
            }
            assert(predictions@.take(i as int) =~= predictions@);
        }
        removed
    }
}

/// Budget respect: in any well-formed accumulator state that is not yet
/// ready to finalize, the batch's total gas allowance fits the gas budget
/// and its cost at the packing price fits the fee budget.  Together with
/// the contract of `add_withdrawal`, every state reachable by a sequence of
/// admissions performed while `ready_to_finalize` was false stays within
/// both budgets.
pub proof fn lemma_budget_respect(acc: WithdrawalsAccumulator)
    requires
        acc.wf(),
        !acc.ready_spec(),
    ensures
        acc.entries().len() * acc.per_entry_gas() <= acc.gas_budget(),
        acc.price() * (acc.entries().len() * acc.per_entry_gas()) <= acc.fee_limit(),
{
    let p = acc.price() as int;
    let t = acc.charged_gas() as int;
    let g = acc.per_entry_gas() as int;
    assert(p * t <= p * (t + g)) by (nonlinear_arith)
        requires
            p >= 0,
            g >= 0,
    ;
}

} // verus!

