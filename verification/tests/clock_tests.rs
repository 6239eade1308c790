use rollo::clock::{Duration, TimeOfDay};

#[test]
fn time_of_day_components() {
    let t = TimeOfDay::from_hms_nano(23, 59, 59, 999_999_999).unwrap();
    assert_eq!(t.as_hms_nano(), (23, 59, 59, 999_999_999));
    assert_eq!(t.nanos_since_midnight(), 86_400_000_000_000 - 1);
    assert!(TimeOfDay::from_hms(24, 0, 0).is_none());
    assert!(TimeOfDay::from_hms(12, 60, 0).is_none());
    assert!(TimeOfDay::from_hms(12, 0, 60).is_none());
    assert!(TimeOfDay::from_hms_nano(12, 0, 0, 1_000_000_000).is_none());
    assert_eq!(TimeOfDay::midnight().nanos_since_midnight(), 0);
}

#[test]
fn time_of_day_order_and_difference() {
    let a = TimeOfDay::from_hms(5, 0, 0).unwrap();
    let b = TimeOfDay::from_hms(15, 30, 0).unwrap();
    assert!(a.is_before(&b));
    assert!(!b.is_before(&a));
    assert!(b.is_after(&a));
    assert!(!a.is_before(&a) && !a.is_after(&a));
    assert_eq!(b.since(&a), Duration::hours(10).add(Duration::minutes(30)));
    assert_eq!(a.since(&b), Duration::nanoseconds(-(10 * 3600 + 30 * 60) * 1_000_000_000));
}

#[test]
fn durations() {
    assert_eq!(Duration::minutes(1).nanos, 60_000_000_000);
    assert_eq!(Duration::hours(2).nanos, 7_200_000_000_000);
    assert_eq!(Duration::days(1).nanos, 86_400_000_000_000);
    assert!(Duration::nanoseconds(-1).is_negative());
    assert!(!Duration::nanoseconds(0).is_negative());
    assert!(Duration::minutes(119).is_shorter_than(&Duration::hours(2)));
    assert!(!Duration::minutes(120).is_shorter_than(&Duration::hours(2)));
    assert_eq!(Duration::nanoseconds(3_250_000_000).as_secs_nanos(), (3, 250_000_000));
    assert_eq!(Duration::hours(5).add(Duration::minutes(10)).as_secs_nanos(), (18_600, 0));
}
