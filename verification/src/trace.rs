use vstd::prelude::*;

use crate::accounts::LedgerView;
use crate::error::TxGuardError;
use crate::fees::FEE_TIERS;
use crate::registry::{outcome_code, HISTORY_SLOTS, OUTCOME_UNRECORDED};

verus! {

/// One call on an initialized ledger, as the three recording operations take
/// it.
pub enum Call {
    Register { success: bool, failure_type: u8, tier: u8 },
    RecordFailure { failure_type: u8 },
    UpdatePriorityFee { tier: u8 },
}

impl Call {
    /// What the call returns on a ledger.
    pub open spec fn result(self, s: LedgerView) -> Result<(), TxGuardError> {
        match self {
            Call::Register { success, failure_type, tier } => s.register_result(
                success,
                failure_type,
                tier,
            ),
            Call::RecordFailure { failure_type } => s.catalog.record_result(failure_type),
            Call::UpdatePriorityFee { tier } => s.fees.bump_result(tier),
        }
    }

    /// What the call leaves behind, accepted or not.
    pub open spec fn leaves(self, s: LedgerView) -> LedgerView {
        match self {
            Call::Register { success, failure_type, tier } => s.after_register(
                success,
                failure_type,
                tier,
            ),
            Call::RecordFailure { failure_type } => LedgerView {
                catalog: s.catalog.after_record(failure_type),
                ..s
            },
            Call::UpdatePriorityFee { tier } => LedgerView { fees: s.fees.after_bump(tier), ..s },
        }
    }

    /// What a store holds after the call, if it keeps what an accepted call
    /// leaves behind and drops what a refused call leaves behind.
    pub open spec fn committed(self, s: LedgerView) -> LedgerView {
        if self.result(s) is Ok {
            self.leaves(s)
        } else {
            s
        }
    }

    /// Whether the call, once accepted, adds a failure to the catalog.
    pub open spec fn counts_failure(self) -> bool {
        match self {
            Call::Register { success, .. } => !success,
            Call::RecordFailure { .. } => true,
            Call::UpdatePriorityFee { .. } => false,
        }
    }
}

/// The ledger after all the calls were left standing, refused ones too.
pub open spec fn run(s: LedgerView, calls: Seq<Call>) -> LedgerView
    decreases calls.len(),
{
    if calls.len() == 0 {
        s
    } else {
        calls.last().leaves(run(s, calls.drop_last()))
    }
}

/// The store after the calls, each one committed only if it was accepted.
pub open spec fn replay(s: LedgerView, calls: Seq<Call>) -> LedgerView
    decreases calls.len(),
{
    if calls.len() == 0 {
        s
    } else {
        calls.last().committed(replay(s, calls.drop_last()))
    }
}

/// The outcomes of the register calls that were accepted during
/// [`replay`], in the order of the calls.
pub open spec fn outcomes(s: LedgerView, calls: Seq<Call>) -> Seq<bool>
    decreases calls.len(),
{
    if calls.len() == 0 {
        Seq::empty()
    } else {
        let earlier = outcomes(s, calls.drop_last());
        let before = replay(s, calls.drop_last());
        match calls.last() {
            Call::Register { success, .. } if calls.last().result(before) is Ok => earlier.push(
                success,
            ),
            _ => earlier,
        }
    }
}

/// How many of the calls were accepted during [`replay`] and add a failure to
/// the catalog: the register calls of a failed outcome and the record-failure
/// calls.
pub open spec fn failures(s: LedgerView, calls: Seq<Call>) -> nat
    decreases calls.len(),
{
    if calls.len() == 0 {
        0
    } else {
        let earlier = failures(s, calls.drop_last());
        let before = replay(s, calls.drop_last());
        if calls.last().counts_failure() && calls.last().result(before) is Ok {
            earlier + 1
        } else {
            earlier
        }
    }
}

/// How many of the outcomes are successes.
pub open spec fn successes(o: Seq<bool>) -> nat
    decreases o.len(),
{
    if o.len() == 0 {
        0
    } else if o.last() {
        successes(o.drop_last()) + 1
    } else {
        successes(o.drop_last())
    }
}

/// Initializing is a full reset: it leaves the same ledger on any two
/// ledgers, so initializing twice in a row leaves what initializing once
/// leaves. That ledger has its shape, and nothing is counted in it.
pub proof fn lemma_initialize_resets(s: LedgerView, t: LedgerView)
    ensures
        s.initialized() == t.initialized(),
        s.initialized().initialized() == s.initialized(),
        s.initialized().well_formed(),
        s.initialized().registry.balanced(),
        s.initialized().registry.tx_count == 0,
        s.initialized().catalog.total() == 0,
        forall|i: int|
            0 <= i < HISTORY_SLOTS ==> #[trigger] s.initialized().registry.history[i]
                == OUTCOME_UNRECORDED,
        forall|t: int| 0 <= t < FEE_TIERS ==> #[trigger] s.initialized().fees.counts[t] == 0,
{
}

/// An accepted call leaves the ledger in its shape, and so does a refused
/// one.
pub proof fn lemma_call_keeps_shape(s: LedgerView, c: Call)
    requires
        s.well_formed(),
    ensures
        c.leaves(s).well_formed(),
        c.committed(s).well_formed(),
{
}

/// The ledger keeps its shape through any calls, whether refused calls are
/// left standing or dropped.
pub proof fn lemma_shape_kept(s: LedgerView, calls: Seq<Call>)
    requires
        s.well_formed(),
    ensures
        run(s, calls).well_formed(),
        replay(s, calls).well_formed(),
    decreases calls.len(),
{
    if calls.len() > 0 {
        lemma_shape_kept(s, calls.drop_last());
        lemma_call_keeps_shape(run(s, calls.drop_last()), calls.last());
        lemma_call_keeps_shape(replay(s, calls.drop_last()), calls.last());
    }
}

/// Successes and failures add up to the attempts after any calls on a ledger
/// where they did before, whether refused calls are left standing or dropped.
pub proof fn lemma_counts_partition_attempts(s: LedgerView, calls: Seq<Call>)
    requires
        s.registry.balanced(),
    ensures
        run(s, calls).registry.balanced(),
        replay(s, calls).registry.balanced(),
    decreases calls.len(),
{
    if calls.len() > 0 {
        lemma_counts_partition_attempts(s, calls.drop_last());
    }
}

/// On a ledger that starts fresh, the attempts are the accepted register
/// calls, the successes those of them that succeeded, and the failures the
/// rest.
pub proof fn lemma_counts_follow_calls(calls: Seq<Call>)
    ensures
        replay(LedgerView::fresh(), calls).registry.tx_count == outcomes(
            LedgerView::fresh(),
            calls,
        ).len(),
        replay(LedgerView::fresh(), calls).registry.success_count == successes(
            outcomes(LedgerView::fresh(), calls),
        ),
        replay(LedgerView::fresh(), calls).registry.success_count + replay(
            LedgerView::fresh(),
            calls,
        ).registry.failure_count == replay(LedgerView::fresh(), calls).registry.tx_count,
    decreases calls.len(),
{
    if calls.len() > 0 {
        let s = LedgerView::fresh();
        let o = outcomes(s, calls.drop_last());
        lemma_counts_follow_calls(calls.drop_last());
        match calls.last() {
            Call::Register { success, .. } => {
                if calls.last().result(replay(s, calls.drop_last())) is Ok {
                    assert(o.push(success).drop_last() =~= o);
                }
            },
            _ => {},
        }
    }
}

/// The catalog's total grows by one with every accepted call that adds a
/// failure, and with nothing else.
pub proof fn lemma_catalog_total_grows(s: LedgerView, calls: Seq<Call>)
    ensures
        replay(s, calls).catalog.total() == s.catalog.total() + failures(s, calls),
    decreases calls.len(),
{
    if calls.len() > 0 {
        lemma_catalog_total_grows(s, calls.drop_last());
    }
}

/// On a ledger that starts fresh, the six counters of the catalog add up to
/// the number of accepted register calls of a failed outcome plus the number
/// of accepted record-failure calls.
pub proof fn lemma_catalog_total(calls: Seq<Call>)
    ensures
        replay(LedgerView::fresh(), calls).catalog.total() == failures(LedgerView::fresh(), calls),
{
    lemma_catalog_total_grows(LedgerView::fresh(), calls);
}

/// On a ledger that starts fresh, after `k` accepted register calls the
/// cursor stands on slot `k mod 100`; each of the last hundred of them, the
/// `j`-th counted from zero, has its outcome in slot `j mod 100`; and the
/// slots from `k` on, which no call has reached yet, are unrecorded.
pub proof fn lemma_history_follows_calls(calls: Seq<Call>)
    ensures
        replay(LedgerView::fresh(), calls).registry.well_formed(),
        replay(LedgerView::fresh(), calls).registry.cursor == outcomes(
            LedgerView::fresh(),
            calls,
        ).len() % (HISTORY_SLOTS as nat),
        forall|j: int|
            0 <= j < outcomes(LedgerView::fresh(), calls).len() && outcomes(
                LedgerView::fresh(),
                calls,
            ).len() - j <= HISTORY_SLOTS ==> replay(
                LedgerView::fresh(),
                calls,
            ).registry.history[j % (HISTORY_SLOTS as int)] == outcome_code(
                #[trigger] outcomes(LedgerView::fresh(), calls)[j],
            ),
        forall|i: int|
            outcomes(LedgerView::fresh(), calls).len() <= i < HISTORY_SLOTS ==> #[trigger] replay(
                LedgerView::fresh(),
                calls,
            ).registry.history[i] == OUTCOME_UNRECORDED,
    decreases calls.len(),
{
    let s = LedgerView::fresh();
    if calls.len() > 0 {
        lemma_history_follows_calls(calls.drop_last());
        let before = replay(s, calls.drop_last());
        let o = outcomes(s, calls.drop_last());
        let k = o.len() as int;
        match calls.last() {
            Call::Register { success, .. } => {
                if calls.last().result(before) is Ok {
                    let after = replay(s, calls);
                    let o2 = outcomes(s, calls);
                    assert(o2 == o.push(success));
                    assert(after.registry == before.registry.recorded(success));
                    assert forall|j: int| 0 <= j < o2.len() && o2.len() - j <= HISTORY_SLOTS implies
                        after.registry.history[j % (HISTORY_SLOTS as int)] == outcome_code(
                        #[trigger] o2[j],
                    ) by {
                        if j < k {
                            assert(o2[j] == o[j]);
                            assert(j % 100 != k % 100);
                        }
                    }
                }
            },
            _ => {},
        }
    }
}

} // verus!
