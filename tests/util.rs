use pbar::{duration_to_datetime, TimeSpan, MAX_SPAN_NANOS};

#[test]
fn test_duration_to_datetime() {
    let (day, hour, minute, second) = duration_to_datetime(TimeSpan::new(90090, 0));
    assert_eq!(day, 1);
    assert_eq!(hour, 1);
    assert_eq!(minute, 1);
    assert_eq!(second, 30);
}

#[test]
fn datetime_of_short_spans() {
    assert_eq!(duration_to_datetime(TimeSpan::new(30, 0)), (0, 0, 0, 30));
    assert_eq!(duration_to_datetime(TimeSpan::new(3690, 0)), (0, 1, 1, 30));
    assert_eq!(duration_to_datetime(TimeSpan::zero()), (0, 0, 0, 0));
}

#[test]
fn span_parts() {
    let d = TimeSpan::new(1, 234);
    assert_eq!(d.as_secs(), 1);
    assert_eq!(d.subsec_nanos(), 234);
    assert_eq!(d.as_nanos(), 1_000_000_234);
    // nanoseconds beyond a second carry into the seconds
    assert_eq!(TimeSpan::new(1, 1_500_000_000).as_secs(), 2);
    assert_eq!(TimeSpan::from_millis(500).as_nanos(), 500_000_000);
}

#[test]
fn span_arithmetic_saturates() {
    let a = TimeSpan::new(5, 0);
    let b = TimeSpan::new(7, 0);
    assert_eq!(a.saturating_sub(b).as_nanos(), 0);
    assert_eq!(b.saturating_sub(a).as_secs(), 2);
    assert_eq!(a.saturating_add(b).as_secs(), 12);
    let max = TimeSpan::from_nanos_saturating(u128::MAX);
    assert_eq!(max.as_nanos(), MAX_SPAN_NANOS);
    assert_eq!(max.saturating_add(a).as_nanos(), MAX_SPAN_NANOS);
    assert_eq!(max.as_secs(), u64::MAX);
}
