use vigil_reporter::{Interval, NANOS_PER_SEC};

#[test]
fn interval_parts() {
    let i = Interval::new(7, 250);
    assert_eq!(i.as_secs(), 7);
    assert_eq!(i.subsec_nanos(), 250);
    assert_eq!(Interval::from_secs(30).subsec_nanos(), 0);
}

#[test]
fn half_of_even_and_odd_seconds() {
    assert_eq!(Interval::from_secs(30).half(), Interval::from_secs(15));
    let h = Interval::from_secs(31).half();
    assert_eq!(h.as_secs(), 15);
    assert_eq!(h.subsec_nanos(), NANOS_PER_SEC / 2);
}

#[test]
fn half_rounds_down_nanoseconds() {
    let h = Interval::new(1, 3).half();
    assert_eq!(h.as_secs(), 0);
    assert_eq!(h.subsec_nanos(), 500_000_001);
}

#[test]
fn half_of_largest_interval() {
    let h = Interval::new(u64::MAX, NANOS_PER_SEC - 1).half();
    assert_eq!(h.as_secs(), u64::MAX / 2);
    assert_eq!(h.subsec_nanos(), NANOS_PER_SEC - 1);
}
