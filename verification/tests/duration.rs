use ratatui_flip_panel::Duration;

#[test]
fn constructors_count_nanoseconds() {
    assert_eq!(Duration::from_secs(2).as_nanos(), 2_000_000_000);
    assert_eq!(Duration::from_millis(33).as_nanos(), 33_000_000);
    assert_eq!(Duration::from_nanos(7).as_nanos(), 7);
    assert_eq!(Duration::new(1, 1_500_000_000).as_nanos(), 2_500_000_000);
}

#[test]
fn seconds_and_fraction_split_the_span() {
    let d = Duration::new(3, 250);
    assert_eq!(d.as_secs(), 3);
    assert_eq!(d.subsec_nanos(), 250);
    assert_eq!(d.as_micros(), 3_000_000);
    let longest = Duration::new(u64::MAX, 999_999_999);
    assert_eq!(longest.as_secs(), u64::MAX);
    assert_eq!(longest.subsec_nanos(), 999_999_999);
}

#[test]
fn saturating_sub_stops_at_zero() {
    let a = Duration::from_millis(5);
    let b = Duration::from_millis(3);
    assert_eq!(a.saturating_sub(&b), Duration::from_millis(2));
    assert_eq!(b.saturating_sub(&a), Duration::from_nanos(0));
}

#[test]
fn min_picks_the_shorter() {
    let a = Duration::from_millis(5);
    let b = Duration::from_millis(3);
    assert_eq!(a.min(&b), b);
    assert_eq!(b.min(&a), b);
}

#[test]
fn seconds_and_fraction_rebuild_the_span() {
    for d in [Duration::from_nanos(0), Duration::new(7, 999_999_999), Duration::from_millis(1_234_567)] {
        assert_eq!(Duration::new(d.as_secs(), d.subsec_nanos()), d);
    }
}
