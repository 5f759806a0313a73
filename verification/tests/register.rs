use txguard::{
    initialize, register_tx_outcome, FailureCatalog, Initialize, PriorityFeeStats,
    RegisterTxOutcome, TransactionRegistry, TxGuardError,
};

fn fresh() -> RegisterTxOutcome {
    let mut a = Initialize {
        registry: TransactionRegistry {
            tx_count: 0,
            success_count: 0,
            failure_count: 0,
            last_100_outcomes: Vec::new(),
            cursor: 0,
        },
        failure_catalog: FailureCatalog {
            slippage_exceeded: 0,
            insufficient_liquidity: 0,
            mev_detected: 0,
            dropped_tx: 0,
            insufficient_funds: 0,
            other: 0,
        },
        priority_fee_stats: PriorityFeeStats { tiers: Vec::new() },
    };
    assert_eq!(initialize(&mut a), Ok(()));
    RegisterTxOutcome {
        registry: a.registry,
        failure_catalog: a.failure_catalog,
        priority_fee_stats: a.priority_fee_stats,
    }
}

fn catalog_counts(c: &FailureCatalog) -> [u32; 6] {
    [
        c.slippage_exceeded,
        c.insufficient_liquidity,
        c.mev_detected,
        c.dropped_tx,
        c.insufficient_funds,
        c.other,
    ]
}

#[test]
fn register_success_then_failure() {
    let mut a = fresh();
    assert_eq!(register_tx_outcome(&mut a, true, 0, 0), Ok(()));
    assert_eq!(register_tx_outcome(&mut a, false, 2, 3), Ok(()));
    assert_eq!(a.registry.tx_count, 2);
    assert_eq!(a.registry.success_count, 1);
    assert_eq!(a.registry.failure_count, 1);
    assert_eq!(a.registry.last_100_outcomes[0], 1);
    assert_eq!(a.registry.last_100_outcomes[1], 0);
    assert_eq!(a.registry.cursor, 2);
    assert_eq!(catalog_counts(&a.failure_catalog), [0, 0, 1, 0, 0, 0]);
    assert_eq!(a.priority_fee_stats.tiers, vec![1u64, 0, 0, 1, 0]);
    for i in 2..100usize {
        assert_eq!(a.registry.last_100_outcomes[i], 2);
    }
}

#[test]
fn register_one_hundred_and_one_times_wraps() {
    let mut a = fresh();
    for _ in 0..100u32 {
        assert_eq!(register_tx_outcome(&mut a, false, 1, 0), Ok(()));
    }
    assert_eq!(a.registry.cursor, 0);
    assert_eq!(a.registry.last_100_outcomes, vec![0u8; 100]);
    assert_eq!(register_tx_outcome(&mut a, true, 0, 0), Ok(()));
    assert_eq!(a.registry.last_100_outcomes[0], 1);
    assert_eq!(a.registry.last_100_outcomes[1], 0);
    assert_eq!(a.registry.cursor, 1);
    assert_eq!(a.registry.tx_count, 101);
}

#[test]
fn register_successes_one_hundred_and_one_times() {
    let mut a = fresh();
    for _ in 0..101u32 {
        assert_eq!(register_tx_outcome(&mut a, true, 0, 0), Ok(()));
    }
    assert_eq!(a.registry.last_100_outcomes[0], 1);
    assert_eq!(a.registry.cursor, 1);
    assert_eq!(a.registry.tx_count, 101);
    assert_eq!(a.registry.success_count, 101);
    assert_eq!(a.registry.failure_count, 0);
    assert_eq!(a.registry.last_100_outcomes, vec![1u8; 100]);
    assert_eq!(a.priority_fee_stats.tiers, vec![101u64, 0, 0, 0, 0]);
    assert_eq!(catalog_counts(&a.failure_catalog), [0, 0, 0, 0, 0, 0]);
}

#[test]
fn register_accepts_the_highest_tier() {
    let mut a = fresh();
    assert_eq!(register_tx_outcome(&mut a, true, 99, 4), Ok(()));
    assert_eq!(a.priority_fee_stats.tiers, vec![0u64, 0, 0, 0, 1]);
    assert_eq!(a.registry.tx_count, 1);
    assert_eq!(a.registry.success_count, 1);
    assert_eq!(catalog_counts(&a.failure_catalog), [0, 0, 0, 0, 0, 0]);
}

#[test]
fn register_refuses_tier_five_and_changes_nothing() {
    let mut a = fresh();
    assert_eq!(register_tx_outcome(&mut a, false, 3, 2), Ok(()));
    let before = a.clone();
    assert_eq!(
        register_tx_outcome(&mut a, true, 0, 5),
        Err(TxGuardError::InvalidPriorityFeeTier)
    );
    assert_eq!(a, before);
    assert_eq!(
        register_tx_outcome(&mut a, false, 1, 255),
        Err(TxGuardError::InvalidPriorityFeeTier)
    );
    assert_eq!(a, before);
}

#[test]
fn register_checks_the_tier_before_the_counters() {
    let mut a = fresh();
    a.registry.tx_count = u64::MAX;
    let before = a.clone();
    assert_eq!(
        register_tx_outcome(&mut a, true, 0, 5),
        Err(TxGuardError::InvalidPriorityFeeTier)
    );
    assert_eq!(a, before);
}

#[test]
fn register_counts_a_failure_under_its_code() {
    let expected: [[u32; 6]; 8] = [
        [1, 0, 0, 0, 0, 0],
        [0, 1, 0, 0, 0, 0],
        [0, 0, 1, 0, 0, 0],
        [0, 0, 0, 1, 0, 0],
        [0, 0, 0, 0, 1, 0],
        [0, 0, 0, 0, 0, 1],
        [0, 0, 0, 0, 0, 1],
        [0, 0, 0, 0, 0, 1],
    ];
    let codes: [u8; 8] = [0, 1, 2, 3, 4, 5, 7, 255];
    for k in 0..8usize {
        let mut a = fresh();
        assert_eq!(register_tx_outcome(&mut a, false, codes[k], 0), Ok(()));
        assert_eq!(catalog_counts(&a.failure_catalog), expected[k]);
        assert_eq!(a.registry.failure_count, 1);
        assert_eq!(a.registry.success_count, 0);
        assert_eq!(a.registry.last_100_outcomes[0], 0);
    }
}

#[test]
fn register_ignores_the_code_of_a_success() {
    let mut a = fresh();
    assert_eq!(register_tx_outcome(&mut a, true, 2, 1), Ok(()));
    assert_eq!(catalog_counts(&a.failure_catalog), [0, 0, 0, 0, 0, 0]);
    assert_eq!(a.registry.last_100_outcomes[0], 1);
    assert_eq!(a.priority_fee_stats.tiers, vec![0u64, 1, 0, 0, 0]);
}

#[test]
fn register_with_full_attempts_counter_changes_nothing() {
    let mut a = fresh();
    a.registry.tx_count = u64::MAX;
    a.registry.success_count = u64::MAX;
    let before = a.clone();
    assert_eq!(register_tx_outcome(&mut a, true, 0, 0), Err(TxGuardError::CountOverflow));
    assert_eq!(a, before);
    assert_eq!(register_tx_outcome(&mut a, false, 0, 0), Err(TxGuardError::CountOverflow));
    assert_eq!(a, before);
}

#[test]
fn register_with_full_outcome_counter_stops_after_the_history() {
    let mut a = fresh();
    a.registry.tx_count = 10;
    a.registry.success_count = u64::MAX;
    assert_eq!(register_tx_outcome(&mut a, true, 0, 3), Err(TxGuardError::CountOverflow));
    assert_eq!(a.registry.tx_count, 11);
    assert_eq!(a.registry.success_count, u64::MAX);
    assert_eq!(a.registry.failure_count, 0);
    assert_eq!(a.registry.last_100_outcomes[0], 1);
    assert_eq!(a.registry.cursor, 1);
    assert_eq!(catalog_counts(&a.failure_catalog), [0, 0, 0, 0, 0, 0]);
    assert_eq!(a.priority_fee_stats.tiers, vec![0u64; 5]);

    let mut b = fresh();
    b.registry.failure_count = u64::MAX;
    assert_eq!(register_tx_outcome(&mut b, false, 1, 3), Err(TxGuardError::CountOverflow));
    assert_eq!(b.registry.tx_count, 1);
    assert_eq!(b.registry.failure_count, u64::MAX);
    assert_eq!(b.registry.last_100_outcomes[0], 0);
    assert_eq!(b.registry.cursor, 1);
    assert_eq!(catalog_counts(&b.failure_catalog), [0, 0, 0, 0, 0, 0]);
    assert_eq!(b.priority_fee_stats.tiers, vec![0u64; 5]);
}

#[test]
fn register_with_full_catalog_counter_stops_after_the_registry() {
    let mut a = fresh();
    a.failure_catalog.dropped_tx = u32::MAX;
    assert_eq!(register_tx_outcome(&mut a, false, 3, 2), Err(TxGuardError::CountOverflow));
    assert_eq!(a.registry.tx_count, 1);
    assert_eq!(a.registry.failure_count, 1);
    assert_eq!(a.registry.success_count, 0);
    assert_eq!(a.registry.last_100_outcomes[0], 0);
    assert_eq!(a.registry.cursor, 1);
    assert_eq!(catalog_counts(&a.failure_catalog), [0, 0, 0, u32::MAX, 0, 0]);
    assert_eq!(a.priority_fee_stats.tiers, vec![0u64; 5]);
    // The full counter is in nobody's way when the attempt succeeded, or
    // failed under another code.
    assert_eq!(register_tx_outcome(&mut a, true, 3, 2), Ok(()));
    assert_eq!(register_tx_outcome(&mut a, false, 4, 2), Ok(()));
    assert_eq!(catalog_counts(&a.failure_catalog), [0, 0, 0, u32::MAX, 1, 0]);
    assert_eq!(a.priority_fee_stats.tiers, vec![0u64, 0, 2, 0, 0]);
}

#[test]
fn register_with_full_tier_counter_stops_after_the_catalog() {
    let mut a = fresh();
    a.priority_fee_stats.tiers[1] = u64::MAX;
    assert_eq!(register_tx_outcome(&mut a, false, 0, 1), Err(TxGuardError::CountOverflow));
    assert_eq!(a.registry.tx_count, 1);
    assert_eq!(a.registry.failure_count, 1);
    assert_eq!(a.registry.last_100_outcomes[0], 0);
    assert_eq!(a.registry.cursor, 1);
    assert_eq!(catalog_counts(&a.failure_catalog), [1, 0, 0, 0, 0, 0]);
    assert_eq!(a.priority_fee_stats.tiers, vec![0u64, u64::MAX, 0, 0, 0]);
}

#[test]
fn register_reaches_the_largest_count() {
    let mut a = fresh();
    a.registry.tx_count = u64::MAX - 1;
    a.registry.success_count = u64::MAX - 1;
    a.priority_fee_stats.tiers[4] = u64::MAX - 1;
    assert_eq!(register_tx_outcome(&mut a, true, 0, 4), Ok(()));
    assert_eq!(a.registry.tx_count, u64::MAX);
    assert_eq!(a.registry.success_count, u64::MAX);
    assert_eq!(a.priority_fee_stats.tiers[4], u64::MAX);
    let mut b = fresh();
    b.failure_catalog.other = u32::MAX - 1;
    assert_eq!(register_tx_outcome(&mut b, false, 200, 0), Ok(()));
    assert_eq!(b.failure_catalog.other, u32::MAX);
}

#[test]
fn register_keeps_successes_and_failures_adding_up() {
    let mut a = fresh();
    for k in 0..257u32 {
        let success: bool = k % 3 != 0;
        let code: u8 = (k % 9) as u8;
        let tier: u8 = (k % 7) as u8;
        let res = register_tx_outcome(&mut a, success, code, tier);
        assert_eq!(res.is_ok(), tier < 5);
        assert_eq!(a.registry.success_count + a.registry.failure_count, a.registry.tx_count);
    }
    // 257 calls, of which those with k % 7 in {5, 6} were refused.
    assert_eq!(a.registry.tx_count, 185);
    assert_eq!(a.registry.success_count, 123);
    assert_eq!(a.registry.failure_count, 62);
}

#[test]
fn register_moves_the_cursor_with_every_accepted_call() {
    let mut a = fresh();
    let mut accepted: Vec<bool> = Vec::new();
    for k in 0..250u32 {
        let success: bool = (k * k + k / 3) % 5 < 2;
        let tier: u8 = (k % 6) as u8;
        if register_tx_outcome(&mut a, success, 0, tier).is_ok() {
            accepted.push(success);
        }
        assert_eq!(a.registry.cursor as usize, accepted.len() % 100);
        assert_eq!(a.registry.tx_count as usize, accepted.len());
        for i in 0..100usize {
            // The newest accepted call whose number leaves remainder i.
            let newest = (0..accepted.len()).rev().find(|j| j % 100 == i);
            let expected: u8 = match newest {
                Some(j) => {
                    if accepted[j] {
                        1
                    } else {
                        0
                    }
                }
                None => 2,
            };
            assert_eq!(a.registry.last_100_outcomes[i], expected);
        }
    }
    assert_eq!(accepted.len(), 209);
    assert_eq!(a.registry.cursor, 9);
}

#[test]
fn register_output_is_well_formed() {
    let mut a = fresh();
    assert!(a.is_well_formed());
    for k in 0..120u32 {
        let _ = register_tx_outcome(&mut a, k % 2 == 0, (k % 8) as u8, (k % 6) as u8);
        assert!(a.is_well_formed());
    }
}
