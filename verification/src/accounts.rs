use vstd::prelude::*;

use crate::catalog::{CatalogView, FailureCatalog};
use crate::error::TxGuardError;
use crate::fees::{FeeView, PriorityFeeStats, FEE_TIERS};
use crate::registry::{RegistryView, TransactionRegistry};

verus! {

/// The aggregates that [`crate::instructions::initialize`] works on.
#[derive(Clone, Debug, PartialEq, Eq)]
pub struct Initialize {
    pub registry: TransactionRegistry,
    pub failure_catalog: FailureCatalog,
    pub priority_fee_stats: PriorityFeeStats,
}

/// The aggregates that [`crate::instructions::register_tx_outcome`] works on.
#[derive(Clone, Debug, PartialEq, Eq)]
pub struct RegisterTxOutcome {
    pub registry: TransactionRegistry,
    pub failure_catalog: FailureCatalog,
    pub priority_fee_stats: PriorityFeeStats,
}

/// The aggregate that [`crate::instructions::record_failure`] works on.
#[derive(Clone, Debug, PartialEq, Eq)]
pub struct RecordFailure {
    pub failure_catalog: FailureCatalog,
}

/// The aggregate that [`crate::instructions::update_priority_fee`] works on.
#[derive(Clone, Debug, PartialEq, Eq)]
pub struct UpdatePriorityFee {
    pub priority_fee_stats: PriorityFeeStats,
}

/// The whole ledger: what the three aggregates hold, with counters that
/// cannot overflow.
pub struct LedgerView {
    pub registry: RegistryView,
    pub catalog: CatalogView,
    pub fees: FeeView,
}

impl LedgerView {
    /// The ledger before anything was recorded.
    pub open spec fn fresh() -> LedgerView {
        LedgerView {
            registry: RegistryView::fresh(),
            catalog: CatalogView::empty(),
            fees: FeeView::empty(),
        }
    }

    /// What initializing leaves behind: the fresh ledger, whatever was there
    /// before.
    pub open spec fn initialized(self) -> LedgerView {
        LedgerView::fresh()
    }

    /// The registry and the fee statistics have their shape; the catalog has
    /// none to keep.
    pub open spec fn well_formed(self) -> bool {
        self.registry.well_formed() && self.fees.well_formed()
    }

    /// The ledger with one more observation in it: the attempt in the
    /// registry, its failure code in the catalog if it failed, its fee tier in
    /// the statistics.
    pub open spec fn observed(self, success: bool, failure_type: u8, tier: u8) -> LedgerView {
        LedgerView {
            registry: self.registry.recorded(success),
            catalog: if success {
                self.catalog
            } else {
                self.catalog.bumped(failure_type)
            },
            fees: self.fees.bumped(tier),
        }
    }

    /// Whether every counter that the observation adds to has room for it.
    pub open spec fn has_room(self, success: bool, failure_type: u8, tier: u8) -> bool {
        &&& self.registry.has_room(success)
        &&& success || self.catalog.has_room(failure_type)
        &&& self.fees.has_room(tier)
    }

    /// What registering an observation returns. The tier is looked at first;
    /// after that only a full counter can refuse the observation.
    pub open spec fn register_result(self, success: bool, failure_type: u8, tier: u8) -> Result<
        (),
        TxGuardError,
    > {
        if tier >= FEE_TIERS {
            Err(TxGuardError::InvalidPriorityFeeTier)
        } else if self.has_room(success, failure_type, tier) {
            Ok(())
        } else {
            Err(TxGuardError::CountOverflow)
        }
    }

    /// What registering an observation leaves behind. The aggregates are
    /// advanced in the order registry, catalog, fee statistics, and the first
    /// full counter ends the call: what was advanced before it stays advanced,
    /// what comes after it is not touched.
    pub open spec fn after_register(self, success: bool, failure_type: u8, tier: u8) -> LedgerView {
        if tier >= FEE_TIERS {
            self
        } else {
            let registry_done = self.registry.has_room(success);
            let catalog_done = registry_done && (success || self.catalog.has_room(failure_type));
            LedgerView {
                registry: self.registry.after_record(success),
                catalog: if registry_done && !success {
                    self.catalog.after_record(failure_type)
                } else {
                    self.catalog
                },
                fees: if catalog_done {
                    self.fees.after_bump(tier)
                } else {
                    self.fees
                },
            }
        }
    }
}

impl View for Initialize {
    type V = LedgerView;

    open spec fn view(&self) -> LedgerView {
        LedgerView {
            registry: self.registry@,
            catalog: self.failure_catalog@,
            fees: self.priority_fee_stats@,
        }
    }
}

impl View for RegisterTxOutcome {
    type V = LedgerView;

    open spec fn view(&self) -> LedgerView {
        LedgerView {
            registry: self.registry@,
            catalog: self.failure_catalog@,
            fees: self.priority_fee_stats@,
        }
    }
}

impl Initialize {
    /// See [`LedgerView::well_formed`].
    pub open spec fn well_formed(&self) -> bool {
        self@.well_formed()
    }
}

impl RegisterTxOutcome {
    /// See [`LedgerView::well_formed`].
    pub open spec fn well_formed(&self) -> bool {
        self@.well_formed()
    }

    /// Tells whether the aggregates have the shape that
    /// [`crate::instructions::register_tx_outcome`] asks for.
    pub fn is_well_formed(&self) -> (ok: bool)
        ensures
            ok == self.well_formed(),
    {
        self.registry.is_well_formed() && self.priority_fee_stats.is_well_formed()
    }
}

impl UpdatePriorityFee {
    /// See [`FeeView::well_formed`].
    pub open spec fn well_formed(&self) -> bool {
        self.priority_fee_stats.well_formed()
    }

    /// Tells whether the statistics have the shape that
    /// [`crate::instructions::update_priority_fee`] asks for.
    pub fn is_well_formed(&self) -> (ok: bool)
        ensures
            ok == self.well_formed(),
    {
        self.priority_fee_stats.is_well_formed()
    }
}

} // verus!
