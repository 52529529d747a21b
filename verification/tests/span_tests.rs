use current_song::span::{now, timestamp_of, Span, Timestamp};

#[test]
fn spans_from_millis_and_seconds() {
    let s = Span::from_millis(1500);
    assert_eq!(s.as_secs(), 1);
    assert_eq!(s.subsec_nanos(), 500_000_000);
    assert_eq!(s.as_millis(), 1500);
    assert_eq!(Span::from_secs(7).as_millis(), 7000);
    assert_eq!(Span::zero().as_millis(), 0);
}

#[test]
fn spans_carry_nanoseconds() {
    let s = Span::new(1, 1_500_000_000);
    assert_eq!(s.as_secs(), 2);
    assert_eq!(s.subsec_nanos(), 500_000_000);
}

#[test]
fn span_distance_and_order() {
    let a = Span::from_millis(1200);
    let b = Span::from_millis(3100);
    assert!(a.lt(&b));
    assert!(!b.lt(&a));
    assert_eq!(a.distance(&b).as_millis(), 1900);
    assert_eq!(b.distance(&a).as_millis(), 1900);
    assert_eq!(b.minus(&a).as_millis(), 1900);
    assert_eq!(Span::new(2, 100).minus(&Span::new(1, 200)).subsec_nanos(), 999_999_900);
}

#[test]
fn clock_readings_become_points_in_time() {
    assert_eq!(timestamp_of(Ok((5, 7))), Timestamp { secs: 5, nanos: 7 });
    assert_eq!(timestamp_of(Err((5, 0))), Timestamp { secs: -5, nanos: 0 });
    assert_eq!(timestamp_of(Err((5, 250_000_000))), Timestamp { secs: -6, nanos: 750_000_000 });
    assert!(now().secs > 1_600_000_000);
}
