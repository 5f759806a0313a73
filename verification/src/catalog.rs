use vstd::prelude::*;

use crate::error::TxGuardError;

verus! {

/// How often each kind of failure was seen.
///
/// A failure is classified by a one-byte code: 0 to 4 stand for the five
/// named kinds, in the order of the fields, and every other code is counted
/// under `other`.
#[derive(Clone, Copy, Debug, PartialEq, Eq)]
pub struct FailureCatalog {
    pub slippage_exceeded: u32,
    pub insufficient_liquidity: u32,
    pub mev_detected: u32,
    pub dropped_tx: u32,
    pub insufficient_funds: u32,
    pub other: u32,
}

/// What a [`FailureCatalog`] holds, with counters that cannot overflow.
pub struct CatalogView {
    pub slippage_exceeded: nat,
    pub insufficient_liquidity: nat,
    pub mev_detected: nat,
    pub dropped_tx: nat,
    pub insufficient_funds: nat,
    pub other: nat,
}

impl CatalogView {
    /// The catalog before any failure.
    pub open spec fn empty() -> CatalogView {
        CatalogView {
            slippage_exceeded: 0,
            insufficient_liquidity: 0,
            mev_detected: 0,
            dropped_tx: 0,
            insufficient_funds: 0,
            other: 0,
        }
    }

    /// All failures in the catalog, of whatever kind.
    pub open spec fn total(self) -> nat {
        self.slippage_exceeded + self.insufficient_liquidity + self.mev_detected + self.dropped_tx
            + self.insufficient_funds + self.other
    }

    /// The counter that a failure code is counted under.
    pub open spec fn count_for(self, failure_type: u8) -> nat {
        match failure_type {
            0 => self.slippage_exceeded,
            1 => self.insufficient_liquidity,
            2 => self.mev_detected,
            3 => self.dropped_tx,
            4 => self.insufficient_funds,
            _ => self.other,
        }
    }

    /// The catalog with one more failure of the given code.
    pub open spec fn bumped(self, failure_type: u8) -> CatalogView {
        match failure_type {
            0 => CatalogView { slippage_exceeded: self.slippage_exceeded + 1, ..self },
            1 => CatalogView { insufficient_liquidity: self.insufficient_liquidity + 1, ..self },
            2 => CatalogView { mev_detected: self.mev_detected + 1, ..self },
            3 => CatalogView { dropped_tx: self.dropped_tx + 1, ..self },
            4 => CatalogView { insufficient_funds: self.insufficient_funds + 1, ..self },
            _ => CatalogView { other: self.other + 1, ..self },
        }
    }

    /// Whether the counter for this code has room for one more failure.
    pub open spec fn has_room(self, failure_type: u8) -> bool {
        self.count_for(failure_type) < u32::MAX
    }

    /// What [`FailureCatalog::record`] returns.
    pub open spec fn record_result(self, failure_type: u8) -> Result<(), TxGuardError> {
        if self.has_room(failure_type) {
            Ok(())
        } else {
            Err(TxGuardError::CountOverflow)
        }
    }

    /// What [`FailureCatalog::record`] leaves behind.
    pub open spec fn after_record(self, failure_type: u8) -> CatalogView {
        if self.has_room(failure_type) {
            self.bumped(failure_type)
        } else {
            self
        }
    }
}

impl View for FailureCatalog {
    type V = CatalogView;

    open spec fn view(&self) -> CatalogView {
        CatalogView {
            slippage_exceeded: self.slippage_exceeded as nat,
            insufficient_liquidity: self.insufficient_liquidity as nat,
            mev_detected: self.mev_detected as nat,
            dropped_tx: self.dropped_tx as nat,
            insufficient_funds: self.insufficient_funds as nat,
            other: self.other as nat,
        }
    }
}

/// Whether two failure codes are counted under the same counter: equal codes
/// are, and so are any two codes that stand for none of the five named kinds.
pub open spec fn same_counter(a: u8, b: u8) -> bool {
    a == b || (a >= 5 && b >= 5)
}

/// One more failure adds one to the total and to the counter of its code, and
/// leaves every other counter as it was.
pub proof fn lemma_bumped_counts(c: CatalogView, failure_type: u8)
    ensures
        c.bumped(failure_type).total() == c.total() + 1,
        forall|code: u8|
            same_counter(code, failure_type) ==> #[trigger] c.bumped(failure_type).count_for(code)
                == c.count_for(code) + 1,
        forall|code: u8|
            !same_counter(code, failure_type) ==> #[trigger] c.bumped(failure_type).count_for(code)
                == c.count_for(code),
{
}

impl FailureCatalog {
    /// Puts every counter back to zero.
    pub fn reset(&mut self)
        ensures
            final(self)@ == CatalogView::empty(),
    {
        self.slippage_exceeded = 0;
        self.insufficient_liquidity = 0;
        self.mev_detected = 0;
        self.dropped_tx = 0;
        self.insufficient_funds = 0;
        self.other = 0;
    }

    /// Counts one failure under its code. Fails with `CountOverflow`, and
    /// changes nothing, when the counter for that code is full.
    pub fn record(&mut self, failure_type: u8) -> (res: Result<(), TxGuardError>)
        ensures
            res == old(self)@.record_result(failure_type),
            res is Ok <==> old(self)@.has_room(failure_type),
            res is Ok ==> final(self)@ == old(self)@.bumped(failure_type),
            res is Err ==> res == Err::<(), TxGuardError>(TxGuardError::CountOverflow)
                && *final(self) == *old(self),
            final(self)@ == old(self)@.after_record(failure_type),
    {
        match failure_type {
            0 => match self.slippage_exceeded.checked_add(1) {
                Some(n) => {
                    self.slippage_exceeded = n;
                },
                None => {
                    return Err(TxGuardError::CountOverflow);
                },
            },
            1 => match self.insufficient_liquidity.checked_add(1) {
                Some(n) => {
                    self.insufficient_liquidity = n;
                },
                None => {
                    return Err(TxGuardError::CountOverflow);
                },
            },
            2 => match self.mev_detected.checked_add(1) {
                Some(n) => {
                    self.mev_detected = n;
                },
                None => {
                    return Err(TxGuardError::CountOverflow);
                },
            },
            3 => match self.dropped_tx.checked_add(1) {
                Some(n) => {
                    self.dropped_tx = n;
                },
                None => {
                    return Err(TxGuardError::CountOverflow);
                },
            },
            4 => match self.insufficient_funds.checked_add(1) {
                Some(n) => {
                    self.insufficient_funds = n;
                },
                None => {
                    return Err(TxGuardError::CountOverflow);
                },
            },
            _ => match self.other.checked_add(1) {
                Some(n) => {
                    self.other = n;
                },
                None => {
                    return Err(TxGuardError::CountOverflow);
                },
            },
        }
        Ok(())
    }
}

} // verus!
