use vstd::prelude::*;

use crate::accounts::{Initialize, LedgerView, RecordFailure, RegisterTxOutcome, UpdatePriorityFee};
use crate::error::TxGuardError;

verus! {

/// Puts all three aggregates into their first state: counters at zero, every
/// history slot unrecorded, the cursor on the first slot. What they held
/// before does not matter and nothing of it is kept.
pub fn initialize(accounts: &mut Initialize) -> (res: Result<(), TxGuardError>)
    ensures
        res is Ok,
        final(accounts)@ == old(accounts)@.initialized(),
        final(accounts)@ == LedgerView::fresh(),
        final(accounts).well_formed(),
        final(accounts)@.registry.balanced(),
{
    accounts.registry.reset();
    accounts.failure_catalog.reset();
    accounts.priority_fee_stats.reset();
    Ok(())
}

/// Registers the outcome of one transaction: the attempt and its outcome in
/// the registry, the failure code in the catalog if it failed, the fee tier in
/// the statistics.
///
/// A tier that does not exist is refused with `InvalidPriorityFeeTier` before
/// anything is changed. A full counter is refused with `CountOverflow` at the
/// moment it is reached: the counters are advanced one after the other, in the
/// order attempts, history, successes or failures, failure code, fee tier, and
/// those before the full one stay advanced. A caller that needs all or nothing
/// keeps the aggregates of a refused call out of its store.
pub fn register_tx_outcome(
    accounts: &mut RegisterTxOutcome,
    success: bool,
    failure_type: u8,
    priority_fee_tier: u8,
) -> (res: Result<(), TxGuardError>)
    requires
        old(accounts).well_formed(),
    ensures
        res == old(accounts)@.register_result(success, failure_type, priority_fee_tier),
        final(accounts)@ == old(accounts)@.after_register(success, failure_type, priority_fee_tier),
        res is Ok ==> final(accounts)@ == old(accounts)@.observed(
            success,
            failure_type,
            priority_fee_tier,
        ),
        res == Err::<(), TxGuardError>(TxGuardError::InvalidPriorityFeeTier)
            ==> *final(accounts) == *old(accounts),
        final(accounts).well_formed(),
        old(accounts)@.registry.balanced() ==> final(accounts)@.registry.balanced(),
{
    if priority_fee_tier >= 5 {
        return Err(TxGuardError::InvalidPriorityFeeTier);
    }
    accounts.registry.record(success)?;
    if !success {
        accounts.failure_catalog.record(failure_type)?;
    }
    accounts.priority_fee_stats.bump(priority_fee_tier)
}

/// Counts one failure under its code, for a classification that arrives apart
/// from the outcome. Codes 0 to 4 name the five kinds; every other code is
/// counted under `other`. Fails with `CountOverflow`, and changes nothing,
/// when the counter for the code is full.
pub fn record_failure(accounts: &mut RecordFailure, failure_type: u8) -> (res: Result<
    (),
    TxGuardError,
>)
    ensures
        res == old(accounts).failure_catalog@.record_result(failure_type),
        res is Ok <==> old(accounts).failure_catalog@.has_room(failure_type),
        res is Ok ==> final(accounts).failure_catalog@
            == old(accounts).failure_catalog@.bumped(failure_type),
        res is Err ==> res == Err::<(), TxGuardError>(TxGuardError::CountOverflow)
            && *final(accounts) == *old(accounts),
        final(accounts).failure_catalog@
            == old(accounts).failure_catalog@.after_record(failure_type),
{
    accounts.failure_catalog.record(failure_type)
}

/// Counts one use of a fee tier. Fails with `InvalidPriorityFeeTier` when the
/// tier is not below five and with `CountOverflow` when its counter is full,
/// and changes nothing in either case.
pub fn update_priority_fee(accounts: &mut UpdatePriorityFee, tier: u8) -> (res: Result<
    (),
    TxGuardError,
>)
    requires
        old(accounts).well_formed(),
    ensures
        res == old(accounts).priority_fee_stats@.bump_result(tier),
        res is Ok ==> final(accounts).priority_fee_stats@
            == old(accounts).priority_fee_stats@.bumped(tier),
        res is Ok ==> final(accounts).priority_fee_stats.tiers@
            == old(accounts).priority_fee_stats.tiers@.update(
            tier as int,
            (old(accounts).priority_fee_stats.tiers@[tier as int] + 1) as u64,
        ),
        res is Err ==> final(accounts).priority_fee_stats.tiers@
            == old(accounts).priority_fee_stats.tiers@,
        final(accounts).priority_fee_stats@ == old(accounts).priority_fee_stats@.after_bump(tier),
        final(accounts).well_formed(),
{
    accounts.priority_fee_stats.bump(tier)
}

} // verus!
