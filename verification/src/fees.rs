use vstd::prelude::*;

use crate::error::TxGuardError;

verus! {

/// Number of priority fee tiers.
pub const FEE_TIERS: usize = 5;

/// How often each priority fee tier was used; `tiers[t]` counts tier `t`.
#[derive(Clone, Debug, PartialEq, Eq)]
pub struct PriorityFeeStats {
    pub tiers: Vec<u64>,
}

/// What a [`PriorityFeeStats`] holds, with counters that cannot overflow.
pub struct FeeView {
    pub counts: Seq<nat>,
}

impl FeeView {
    /// The statistics before any use: one zero for each tier.
    pub open spec fn empty() -> FeeView {
        FeeView { counts: Seq::new(FEE_TIERS as nat, |t: int| 0nat) }
    }

    /// The shape all statistics have: one counter for each tier.
    pub open spec fn well_formed(self) -> bool {
        self.counts.len() == FEE_TIERS
    }

    /// The statistics with one more use of the tier.
    pub open spec fn bumped(self, tier: u8) -> FeeView {
        FeeView { counts: self.counts.update(tier as int, self.counts[tier as int] + 1) }
    }

    /// Whether the tier exists and its counter has room for one more use.
    pub open spec fn has_room(self, tier: u8) -> bool {
        tier < FEE_TIERS && self.counts[tier as int] < u64::MAX
    }

    /// What [`PriorityFeeStats::bump`] leaves behind.
    pub open spec fn after_bump(self, tier: u8) -> FeeView {
        if self.has_room(tier) {
            self.bumped(tier)
        } else {
            self
        }
    }

    /// What [`PriorityFeeStats::bump`] returns: a tier that does not exist is
    /// refused before its counter is looked at.
    pub open spec fn bump_result(self, tier: u8) -> Result<(), TxGuardError> {
        if tier >= FEE_TIERS {
            Err(TxGuardError::InvalidPriorityFeeTier)
        } else if self.counts[tier as int] >= u64::MAX {
            Err(TxGuardError::CountOverflow)
        } else {
            Ok(())
        }
    }
}

impl View for PriorityFeeStats {
    type V = FeeView;

    open spec fn view(&self) -> FeeView {
        FeeView { counts: self.tiers@.map_values(|c: u64| c as nat) }
    }
}

impl PriorityFeeStats {
    /// See [`FeeView::well_formed`].
    pub open spec fn well_formed(&self) -> bool {
        self@.well_formed()
    }

    /// Tells whether the statistics have the shape that `bump` asks for.
    pub fn is_well_formed(&self) -> (ok: bool)
        ensures
            ok == self.well_formed(),
    {
        self.tiers.len() == FEE_TIERS
    }

    /// Puts the statistics back to one zero for each tier, whatever they held.
    pub fn reset(&mut self)
        ensures
            final(self)@ == FeeView::empty(),
            final(self).well_formed(),
    {
        self.tiers.clear();
        for t in 0..FEE_TIERS
            invariant
                self.tiers@ =~= Seq::new(t as nat, |j: int| 0u64),
        {
            self.tiers.push(0);
        }
        assert(self@.counts =~= FeeView::empty().counts);
    }

    /// Counts one use of a tier. Fails with `InvalidPriorityFeeTier` when there
    /// is no such tier and with `CountOverflow` when its counter is full, and
    /// changes nothing in either case.
    pub fn bump(&mut self, tier: u8) -> (res: Result<(), TxGuardError>)
        requires
            old(self).well_formed(),
        ensures
            res == old(self)@.bump_result(tier),
            res is Ok <==> old(self)@.has_room(tier),
            res is Ok ==> final(self)@ == old(self)@.bumped(tier),
            res is Ok ==> final(self).tiers@ == old(self).tiers@.update(
                tier as int,
                (old(self).tiers@[tier as int] + 1) as u64,
            ),
            res is Err ==> final(self).tiers@ == old(self).tiers@,
            final(self)@ == old(self)@.after_bump(tier),
            final(self).well_formed(),
    {
        if tier >= 5 {
            return Err(TxGuardError::InvalidPriorityFeeTier);
        }
        let t: usize = tier as usize;
        match self.tiers[t].checked_add(1) {
            Some(n) => {
                self.tiers[t] = n;
            },
            None => {
                return Err(TxGuardError::CountOverflow);
            },
        }
        assert(self@.counts =~= old(self)@.bumped(tier).counts);
        Ok(())
    }
}

} // verus!
