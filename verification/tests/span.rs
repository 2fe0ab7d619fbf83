use rustypwn::io::span::{Span, NANOS_PER_MILLI, NANOS_PER_SEC};

#[test]
fn spans_count_nanoseconds() {
    assert_eq!(NANOS_PER_SEC, 1_000_000_000);
    assert_eq!(NANOS_PER_MILLI, 1_000_000);
    assert_eq!(Span::zero().as_nanos(), 0);
    assert_eq!(Span::from_nanos(17).as_nanos(), 17);
    assert_eq!(Span::from_millis(50).as_nanos(), 50_000_000);
    assert_eq!(Span::from_secs(2).as_nanos(), 2_000_000_000);
    assert_eq!(Span::from_secs(u64::MAX).as_nanos(), 18_446_744_073_709_551_615_000_000_000);
    assert_eq!(Span::from_millis(u64::MAX).as_nanos(), 18_446_744_073_709_551_615_000_000);
    assert_eq!(Span::from_secs(1), Span::from_millis(1000));
}

#[test]
fn a_span_splits_into_seconds_and_the_rest() {
    let span = Span::from_nanos(3_250_000_001);
    assert_eq!(span.secs(), 3);
    assert_eq!(span.subsec_nanos(), 250_000_001);
    assert_eq!(Span::from_millis(999).secs(), 0);
    assert_eq!(Span::from_millis(999).subsec_nanos(), 999_000_000);
    assert_eq!(Span::from_secs(u64::MAX).secs(), u64::MAX);
    assert_eq!(Span::from_nanos(u128::MAX).secs(), u64::MAX);
    assert_eq!(Span::from_nanos(u128::MAX).subsec_nanos(), 768_211_455);
}

#[test]
fn spans_compare_by_length() {
    let short = Span::from_millis(999);
    let long = Span::from_secs(1);
    assert!(long.at_least(short));
    assert!(long.at_least(long));
    assert!(!short.at_least(long));
    assert!(long.longer_than(short));
    assert!(!long.longer_than(long));
    assert!(!short.longer_than(long));
}

#[test]
fn minus_stops_at_nothing() {
    let second = Span::from_secs(1);
    assert_eq!(second.minus(Span::from_millis(250)), Span::from_millis(750));
    assert_eq!(second.minus(second), Span::zero());
    assert_eq!(second.minus(Span::from_secs(2)), Span::zero());
    assert_eq!(second.minus(Span::zero()), second);
}
