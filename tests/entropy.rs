use codex_temporal::entropy::{
    wall_time_plus_millis, TemporalClock, TemporalRandomSource, TimeSpan, WallTime,
};
use codex_temporal::text::decimal_string;
use codex_temporal::{WorkflowClock, WorkflowRandomSource};

#[test]
fn workflow_random_source_is_deterministic() {
    let mut source1 = WorkflowRandomSource::new(12345);
    let mut source2 = WorkflowRandomSource::new(12345);

    assert_eq!(source1.u64(), source2.u64());
    let f1 = source1.u64() as f64 / u64::MAX as f64;
    let f2 = source2.u64() as f64 / u64::MAX as f64;
    assert_eq!(f1, f2);
    assert_eq!(source1.uuid(), source2.uuid());
}

#[test]
fn workflow_random_source_different_seeds() {
    let mut source1 = WorkflowRandomSource::new(12345);
    let mut source2 = WorkflowRandomSource::new(54321);

    assert_ne!(source1.u64(), source2.u64());
}

#[test]
fn workflow_clock_returns_configured_time() {
    let time = WallTime::from_secs(1000000);
    let clock = WorkflowClock::new(time);

    assert_eq!(clock.wall_time(), time);
    assert_eq!(clock.unix_millis(), 1000000000);
}

#[test]
fn workflow_random_source_values_are_exact() {
    let mut source = WorkflowRandomSource::new(12345);
    assert_eq!(source.u64(), 10977518812293740004);
    assert_eq!(source.u64(), 16540313148032699707);
}

#[test]
fn workflow_random_source_uuid_is_exact() {
    let mut source = WorkflowRandomSource::new(12345);
    assert_eq!(source.uuid(), "9857fb32-c9ef-4b5e-a58a-ff2c7e364d3b");
}

#[test]
fn workflow_random_source_same_seed_same_stream() {
    let mut a = WorkflowRandomSource::new(7);
    let mut b = WorkflowRandomSource::new(7);
    let xs: Vec<u64> = (0..20).map(|_| a.u64()).collect();
    let ys: Vec<u64> = (0..20).map(|_| b.u64()).collect();
    assert_eq!(xs, ys);
    assert_eq!(a.uuid(), b.uuid());
}

#[test]
fn workflow_clock_now_and_before_epoch() {
    let clock = WorkflowClock::new(WallTime { secs: 12, nanos: 345_000_000 });
    assert_eq!(clock.now(), TimeSpan { secs: 12, nanos: 345_000_000 });
    assert_eq!(clock.unix_millis(), 12345);

    let before = WorkflowClock::new(WallTime { secs: -5, nanos: 0 });
    assert_eq!(before.now(), TimeSpan { secs: 0, nanos: 0 });
    assert_eq!(before.unix_millis(), 0);
}

#[test]
fn temporal_random_source_is_deterministic() {
    let mut r1 = TemporalRandomSource::new(42);
    let mut r2 = TemporalRandomSource::new(42);

    let uuids1: Vec<String> = (0..10).map(|_| r1.uuid()).collect();
    let uuids2: Vec<String> = (0..10).map(|_| r2.uuid()).collect();

    assert_eq!(uuids1, uuids2, "same seed must produce same UUIDs");
}

#[test]
fn temporal_random_source_different_seeds_differ() {
    let mut r1 = TemporalRandomSource::new(42);
    let mut r2 = TemporalRandomSource::new(99);

    assert_ne!(r1.uuid(), r2.uuid(), "different seeds should produce different UUIDs");
}

#[test]
fn temporal_random_f64_in_range() {
    let mut r = TemporalRandomSource::new(123);
    for _ in 0..100 {
        let v = r.unit_fraction_bits() as f64 / (1u64 << 53) as f64;
        assert!((0.0..1.0).contains(&v), "f64 should be in [0, 1), got {v}");
    }
}

#[test]
fn temporal_random_source_uuid_is_exact() {
    let mut r = TemporalRandomSource::new(42);
    assert_eq!(r.uuid(), "aa4a5195-0a00-4000-bf02-02f8fdaa0aa0");
}

#[test]
fn temporal_random_source_values_are_exact() {
    let mut r = TemporalRandomSource::new(42);
    assert_eq!(r.u64(), 45454805674);
    let mut z = TemporalRandomSource::new(0);
    assert_eq!(z.u64(), 2872271934144653387);
}

#[test]
fn temporal_uuid_has_version_and_variant() {
    let mut r = TemporalRandomSource::new(99);
    for _ in 0..20 {
        let u = r.uuid();
        assert_eq!(u.len(), 36);
        let parts: Vec<&str> = u.split('-').collect();
        assert_eq!(parts.iter().map(|p| p.len()).collect::<Vec<_>>(), vec![8, 4, 4, 4, 12]);
        assert!(parts[2].starts_with('4'));
        assert!(matches!(parts[3].chars().next(), Some('8' | '9' | 'a' | 'b')));
    }
}

#[test]
fn temporal_clock_wall_time_advances() {
    let epoch = WallTime::from_secs(1_700_000_000);
    let mut clock = TemporalClock::new(epoch);

    let t1 = clock.wall_time();
    let t2 = clock.wall_time();

    assert!(t2 > t1, "wall_time should advance monotonically");
}

#[test]
fn temporal_clock_unix_millis_reasonable() {
    let epoch = WallTime::from_secs(1_700_000_000);
    let mut clock = TemporalClock::new(epoch);
    let millis = clock.unix_millis();

    assert!(millis >= 1_700_000_000_000, "should be after epoch, got {millis}");
}

#[test]
fn temporal_clock_ticks_by_one_millisecond() {
    let mut clock = TemporalClock::new(WallTime { secs: 10, nanos: 999_500_000 });
    assert_eq!(clock.wall_time(), WallTime { secs: 10, nanos: 999_500_000 });
    assert_eq!(clock.wall_time(), WallTime { secs: 11, nanos: 500_000 });
    clock.advance(WallTime::epoch());
    assert_eq!(clock.unix_millis(), 11_002);
}

#[test]
fn wall_time_plus_millis_carries_seconds() {
    let t = wall_time_plus_millis(WallTime { secs: 1, nanos: 900_000_000 }, 2_150);
    assert_eq!(t, WallTime { secs: 4, nanos: 50_000_000 });
}

#[test]
fn decimal_text() {
    assert_eq!(decimal_string(0), "0");
    assert_eq!(decimal_string(1234567890), "1234567890");
    assert_eq!(decimal_string(u64::MAX), "18446744073709551615");
}
