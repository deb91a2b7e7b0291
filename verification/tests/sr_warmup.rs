use conduit_core::sr_warmup::sr_warmup_exact_active;
use conduit_core::sr_warmup::{SrWarmupContextV2, SrWarmupMinuteV2, SrWarmupSnapshotV2, SrWarmupSourceV2};

const CUTOFF: i64 = 1_700_000_400_000;

fn context() -> SrWarmupContextV2 {
    SrWarmupContextV2 {
        account_scope: "acc-1".to_string(),
        symbol: "XAUUSD".to_string(),
        runtime_generation: "gen-3".to_string(),
        source_kind: SrWarmupSourceV2::FullBrokerTicks,
        clock_domain: "broker-server".to_string(),
        explicit_offset_ms: 0,
        price_normalization: "2dp".to_string(),
    }
}

fn minute(bucket: i64) -> SrWarmupMinuteV2 {
    SrWarmupMinuteV2 {
        bucket_open_ts: bucket,
        first_tick_ts: bucket + 1_000,
        last_tick_ts: bucket + 59_000,
        high_mid: 400_100,
        low_mid: 399_900,
        close_mid: 400_000,
        last_spread: 20,
        tick_count: 40,
    }
}

fn snapshot() -> SrWarmupSnapshotV2 {
    SrWarmupSnapshotV2 {
        version: 2,
        context: context(),
        source_hash: "ab".repeat(32),
        from_inclusive: CUTOFF - 300_000,
        cutoff_exclusive: CUTOFF,
        complete_query_coverage: true,
        minutes: vec![minute(CUTOFF - 300_000), minute(CUTOFF - 240_000), minute(CUTOFF - 60_000)],
    }
}

fn err(s: &SrWarmupSnapshotV2) -> String {
    s.validate(&context(), CUTOFF).unwrap_err()
}

#[test]
fn complete_ordered_snapshot_is_accepted() {
    assert!(snapshot().validate(&context(), CUTOFF).is_ok());
    let mut s = snapshot();
    s.minutes.clear();
    assert!(s.validate(&context(), CUTOFF).is_ok());
}

#[test]
fn snapshot_identity_range_and_hash_are_checked_in_order() {
    let mut s = snapshot();
    s.version = 1;
    s.context.symbol = "EURUSD".to_string();
    assert_eq!(err(&s), "unsupported SR snapshot version");
    let mut s = snapshot();
    s.context.symbol = "EURUSD".to_string();
    assert_eq!(err(&s), "SR account/symbol/generation/source/clock/precision mismatch");
    let mut s = snapshot();
    s.context.clock_domain = "  ".to_string();
    let mut expected = context();
    expected.clock_domain = "  ".to_string();
    assert_eq!(s.validate(&expected, CUTOFF).unwrap_err(), "missing SR identity/clock/precision context");
    let s = snapshot();
    assert_eq!(s.validate(&context(), CUTOFF + 1).unwrap_err(), "invalid SR causal range/cutoff");
    let mut s = snapshot();
    s.from_inclusive = CUTOFF;
    assert_eq!(err(&s), "invalid SR causal range/cutoff");
    let mut s = snapshot();
    s.complete_query_coverage = false;
    assert_eq!(err(&s), "incomplete SR query coverage");
    let mut s = snapshot();
    s.source_hash = "g".repeat(64);
    assert_eq!(err(&s), "invalid SR canonical source hash");
    let mut s = snapshot();
    s.source_hash = "AB".repeat(31);
    assert_eq!(err(&s), "invalid SR canonical source hash");
}

#[test]
fn minutes_must_be_aligned_ordered_priced_and_countable() {
    let mut s = snapshot();
    s.minutes[1].bucket_open_ts += 1;
    assert_eq!(err(&s), "invalid/future/out-of-order SR minute");
    let mut s = snapshot();
    s.minutes.swap(0, 1);
    assert_eq!(err(&s), "invalid/future/out-of-order SR minute");
    let mut s = snapshot();
    s.minutes[2].last_tick_ts = CUTOFF;
    assert_eq!(err(&s), "invalid/future/out-of-order SR minute");
    let mut s = snapshot();
    s.minutes[0].tick_count = 0;
    assert_eq!(err(&s), "invalid/future/out-of-order SR minute");
    let mut s = snapshot();
    s.minutes[1].close_mid = 400_200;
    assert_eq!(err(&s), "invalid SR MID price/spread");
    let mut s = snapshot();
    s.minutes[1].low_mid = 0;
    s.minutes[2].tick_count = 0;
    assert_eq!(err(&s), "invalid SR MID price/spread");
    let mut s = snapshot();
    s.minutes[1].tick_count = u64::MAX;
    assert_eq!(err(&s), "SR tick count overflow");
}

#[test]
fn exact_warmup_needs_every_switch() {
    assert!(sr_warmup_exact_active(true, true, true));
    assert!(!sr_warmup_exact_active(true, true, false));
    assert!(!sr_warmup_exact_active(false, true, true));
    assert!(!sr_warmup_exact_active(true, false, true));
}
