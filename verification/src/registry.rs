use vstd::prelude::*;

use crate::error::TxGuardError;

verus! {

/// Number of slots in the outcome history.
pub const HISTORY_SLOTS: usize = 100;

/// History code of an attempt that failed.
pub const OUTCOME_FAILURE: u8 = 0;

/// History code of an attempt that succeeded.
pub const OUTCOME_SUCCESS: u8 = 1;

/// History code of a slot that no attempt has been written to yet.
pub const OUTCOME_UNRECORDED: u8 = 2;

/// The history code that stands for an outcome.
pub open spec fn outcome_code(success: bool) -> u8 {
    if success {
        OUTCOME_SUCCESS
    } else {
        OUTCOME_FAILURE
    }
}

/// Totals of the recorded attempts, and a ring of the most recent outcomes.
///
/// `cursor` is the slot that the next attempt is written to; once the ring is
/// full the newest outcome replaces the oldest.
#[derive(Clone, Debug, PartialEq, Eq)]
pub struct TransactionRegistry {
    pub tx_count: u64,
    pub success_count: u64,
    pub failure_count: u64,
    pub last_100_outcomes: Vec<u8>,
    pub cursor: u8,
}

/// What a [`TransactionRegistry`] holds, with counters that cannot overflow.
pub struct RegistryView {
    pub tx_count: nat,
    pub success_count: nat,
    pub failure_count: nat,
    pub history: Seq<u8>,
    pub cursor: nat,
}

impl RegistryView {
    /// The registry before any attempt: all counters zero, every slot
    /// unrecorded, the cursor on the first slot.
    pub open spec fn fresh() -> RegistryView {
        RegistryView {
            tx_count: 0,
            success_count: 0,
            failure_count: 0,
            history: Seq::new(HISTORY_SLOTS as nat, |i: int| OUTCOME_UNRECORDED),
            cursor: 0,
        }
    }

    /// The shape every registry has: a full ring of known codes and a cursor
    /// inside it.
    pub open spec fn well_formed(self) -> bool {
        &&& self.cursor < HISTORY_SLOTS
        &&& self.history.len() == HISTORY_SLOTS
        &&& forall|i: int|
            0 <= i < self.history.len() ==> #[trigger] self.history[i] <= OUTCOME_UNRECORDED
    }

    /// Successes and failures together make up the attempts.
    pub open spec fn balanced(self) -> bool {
        self.success_count + self.failure_count == self.tx_count
    }

    /// The counter that an attempt with this outcome adds to.
    pub open spec fn tally(self, success: bool) -> nat {
        if success {
            self.success_count
        } else {
            self.failure_count
        }
    }

    /// One more attempt counted.
    pub open spec fn counted(self) -> RegistryView {
        RegistryView { tx_count: self.tx_count + 1, ..self }
    }

    /// The outcome written to the slot under the cursor, and the cursor moved
    /// on by one slot, from the last slot back to the first.
    pub open spec fn logged(self, success: bool) -> RegistryView {
        RegistryView {
            history: self.history.update(self.cursor as int, outcome_code(success)),
            cursor: (self.cursor + 1) % (HISTORY_SLOTS as nat),
            ..self
        }
    }

    /// One more success, or one more failure.
    pub open spec fn tallied(self, success: bool) -> RegistryView {
        if success {
            RegistryView { success_count: self.success_count + 1, ..self }
        } else {
            RegistryView { failure_count: self.failure_count + 1, ..self }
        }
    }

    /// The registry with one more attempt in it.
    pub open spec fn recorded(self, success: bool) -> RegistryView {
        self.counted().logged(success).tallied(success)
    }

    /// Whether both counters that an attempt adds to have room for it.
    pub open spec fn has_room(self, success: bool) -> bool {
        self.tx_count < u64::MAX && self.tally(success) < u64::MAX
    }

    /// What [`TransactionRegistry::record`] leaves behind. The counters are
    /// advanced one after the other, so a full outcome counter is found only
    /// after the attempt was counted and logged.
    pub open spec fn after_record(self, success: bool) -> RegistryView {
        if self.tx_count >= u64::MAX {
            self
        } else if self.tally(success) >= u64::MAX {
            self.counted().logged(success)
        } else {
            self.recorded(success)
        }
    }
}

impl View for TransactionRegistry {
    type V = RegistryView;

    open spec fn view(&self) -> RegistryView {
        RegistryView {
            tx_count: self.tx_count as nat,
            success_count: self.success_count as nat,
            failure_count: self.failure_count as nat,
            history: self.last_100_outcomes@,
            cursor: self.cursor as nat,
        }
    }
}

/// Recording an attempt keeps the registry's shape.
pub proof fn lemma_record_keeps_shape(r: RegistryView, success: bool)
    requires
        r.well_formed(),
    ensures
        r.counted().well_formed(),
        r.counted().logged(success).well_formed(),
        r.recorded(success).well_formed(),
        r.after_record(success).well_formed(),
{
}

/// A balanced registry cannot run out of room in an outcome counter before
/// the attempts counter is full, and it stays balanced whatever `record`
/// leaves behind.
pub proof fn lemma_record_keeps_balance(r: RegistryView, success: bool)
    requires
        r.balanced(),
    ensures
        r.tx_count < u64::MAX ==> r.has_room(success),
        r.after_record(success).balanced(),
{
}

impl TransactionRegistry {
    /// See [`RegistryView::well_formed`].
    pub open spec fn well_formed(&self) -> bool {
        self@.well_formed()
    }

    /// Tells whether the registry has the shape that `record` asks for.
    pub fn is_well_formed(&self) -> (ok: bool)
        ensures
            ok == self.well_formed(),
    {
        if self.cursor as usize >= HISTORY_SLOTS || self.last_100_outcomes.len() != HISTORY_SLOTS {
            return false;
        }
        let mut i: usize = 0;
        while i < HISTORY_SLOTS
            invariant
                i <= HISTORY_SLOTS,
                self.last_100_outcomes@.len() == HISTORY_SLOTS,
                forall|j: int| 0 <= j < i ==> #[trigger] self.last_100_outcomes@[j] <= OUTCOME_UNRECORDED,
            decreases HISTORY_SLOTS - i,
        {
            if self.last_100_outcomes[i] > OUTCOME_UNRECORDED {
                return false;
            }
            i += 1;
        }
        true
    }

    /// Puts the registry back to its first state, whatever it held.
    pub fn reset(&mut self)
        ensures
            final(self)@ == RegistryView::fresh(),
    {
        self.tx_count = 0;
        self.success_count = 0;
        self.failure_count = 0;
        self.cursor = 0;
        self.last_100_outcomes.clear();
        for i in 0..HISTORY_SLOTS
            invariant
                self.tx_count == 0,
                self.success_count == 0,
                self.failure_count == 0,
                self.cursor == 0,
                self.last_100_outcomes@ =~= Seq::new(i as nat, |j: int| OUTCOME_UNRECORDED),
        {
            self.last_100_outcomes.push(OUTCOME_UNRECORDED);
        }
    }

    /// Records one attempt: counts it, writes its outcome under the cursor and
    /// moves the cursor on, then counts the success or the failure.
    ///
    /// Fails with `CountOverflow` when a counter is full. The attempts counter
    /// is tried first and nothing changes if it is full; the outcome counter is
    /// tried last, when the attempt is already counted and logged.
    pub fn record(&mut self, success: bool) -> (res: Result<(), TxGuardError>)
        requires
            old(self).well_formed(),
        ensures
            res is Ok <==> old(self)@.has_room(success),
            res is Ok ==> final(self)@ == old(self)@.recorded(success),
            res is Err ==> res == Err::<(), TxGuardError>(TxGuardError::CountOverflow),
            final(self)@ == old(self)@.after_record(success),
            final(self).well_formed(),
            old(self)@.balanced() ==> final(self)@.balanced(),
    {
        proof {
            lemma_record_keeps_shape(old(self)@, success);
            if old(self)@.balanced() {
                lemma_record_keeps_balance(old(self)@, success);
            }
        }
        match self.tx_count.checked_add(1) {
            Some(n) => {
                self.tx_count = n;
            },
            None => {
                return Err(TxGuardError::CountOverflow);
            },
        }
        let slot: usize = self.cursor as usize;
        self.last_100_outcomes[slot] = if success {
            OUTCOME_SUCCESS
        } else {
            OUTCOME_FAILURE
        };
        self.cursor = (self.cursor + 1) % 100;
        if success {
            match self.success_count.checked_add(1) {
                Some(n) => {
                    self.success_count = n;
                },
                None => {
                    return Err(TxGuardError::CountOverflow);
                },
            }
        } else {
            match self.failure_count.checked_add(1) {
                Some(n) => {
                    self.failure_count = n;
                },
                None => {
                    return Err(TxGuardError::CountOverflow);
                },
            }
        }
        Ok(())
    }
}

} // verus!
