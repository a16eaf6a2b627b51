use web_codecs::{Duration, Timestamp};

#[test]
fn duration_from_each_unit_counts_micros() {
    assert_eq!(Duration::from_micros(7).as_micros(), 7);
    assert_eq!(Duration::from_millis(3).as_micros(), 3_000);
    assert_eq!(Duration::from_seconds(2).as_micros(), 2_000_000);
    assert_eq!(Duration::from_minutes(2).as_micros(), 120_000_000);
    assert_eq!(Duration::from_hours(1).as_micros(), 3_600_000_000);
}

#[test]
fn duration_as_each_unit_rounds_down() {
    let d = Duration::from_micros(3_725_999_999);
    assert_eq!(d.as_millis(), 3_725_999);
    assert_eq!(d.as_seconds(), 3_725);
    assert_eq!(d.as_minutes(), 62);
    assert_eq!(d.as_hours(), 1);
}

#[test]
fn duration_units_of_a_clock() {
    // 90 kHz, the clock of MPEG transport streams.
    assert_eq!(Duration::from_units(90_000, 90_000).as_micros(), 1_000_000);
    assert_eq!(Duration::from_units(3_003, 90_000).as_micros(), 33_366);
    assert_eq!(Duration::from_micros(1_000_000).as_units(90_000), 90_000);
    assert_eq!(Duration::from_micros(33_366).as_units(90_000), 3_002);
    // One tick of a clock that ticks three times a second.
    assert_eq!(Duration::from_units(1, 3).as_micros(), 333_333);
}

#[test]
fn duration_units_survive_large_counts() {
    // The product value * 1_000_000 does not fit in 64 bits; the result does.
    let value = 40_000_000_000_000u64;
    assert_eq!(Duration::from_units(value, 4_000_000).as_micros(), 10_000_000_000_000);
    let d = Duration::from_micros(10_000_000_000_000);
    assert_eq!(d.as_units(4_000_000), value);
}

#[test]
fn duration_checked_arithmetic() {
    let a = Duration::from_micros(10);
    let b = Duration::from_micros(4);
    assert_eq!(a.checked_add(b), Some(Duration::from_micros(14)));
    assert_eq!(a.checked_sub(b), Some(Duration::from_micros(6)));
    assert_eq!(b.checked_sub(a), None);
    assert_eq!(Duration::from_micros(u64::MAX).checked_add(Duration::from_micros(1)), None);
    assert_eq!(b.saturating_sub(a), Duration::from_micros(0));
    assert_eq!(a.saturating_sub(b), Duration::from_micros(6));
    assert!(a.at_least(b));
    assert!(a.at_least(a));
    assert!(!b.at_least(a));
    assert!(Duration::default().is_zero());
    assert!(!a.is_zero());
}

#[test]
fn timestamp_from_each_unit_counts_micros() {
    assert_eq!(Timestamp::from_micros(7).as_micros(), 7);
    assert_eq!(Timestamp::from_millis(3).as_micros(), 3_000);
    assert_eq!(Timestamp::from_seconds(2).as_micros(), 2_000_000);
    assert_eq!(Timestamp::from_minutes(2).as_micros(), 120_000_000);
    assert_eq!(Timestamp::from_hours(1).as_micros(), 3_600_000_000);
    assert_eq!(Timestamp::from_units(45_000, 90_000).as_micros(), 500_000);
}

#[test]
fn timestamp_as_each_unit_rounds_down() {
    let t = Timestamp::from_micros(7_325_999_999);
    assert_eq!(t.as_millis(), 7_325_999);
    assert_eq!(t.as_seconds(), 7_325);
    assert_eq!(t.as_minutes(), 122);
    assert_eq!(t.as_hours(), 2);
    assert_eq!(t.as_units(90_000), 659_339_999);
}

#[test]
fn timestamp_is_totally_ordered() {
    let a = Timestamp::from_millis(1);
    let b = Timestamp::from_millis(2);
    assert!(a < b);
    assert!(b > a);
    assert!(a <= a);
    assert_eq!(a, Timestamp::from_micros(1_000));
    assert_ne!(a, b);
    assert_eq!(a.max(b), b);
    assert!(b.is_after(a));
    assert!(!a.is_after(b));
    assert!(!a.is_after(a));
}

#[test]
fn timestamp_moves_by_durations() {
    let t = Timestamp::from_seconds(10);
    let d = Duration::from_seconds(3);
    assert_eq!(t + d, Timestamp::from_seconds(13));
    assert_eq!(t - d, Timestamp::from_seconds(7));
    assert_eq!((t + d) - t, d);
    assert_eq!((t + d) - d, t);
    assert_eq!(t - Timestamp::from_seconds(4), Duration::from_seconds(6));
}

#[test]
fn timestamp_reads_as_duration() {
    let t = Timestamp::from_millis(1_500);
    assert_eq!(t.since_origin(), Duration::from_millis(1_500));
    // Through `Deref` a timestamp answers what a duration answers.
    assert!(!t.is_zero());
    assert!(Timestamp::default().is_zero());
    assert_eq!(Timestamp::default().as_micros(), 0);
}

#[test]
fn timestamp_elapsed_since_never_goes_negative() {
    let early = Timestamp::from_seconds(1);
    let late = Timestamp::from_seconds(4);
    assert_eq!(late.elapsed_since(early), Duration::from_seconds(3));
    assert_eq!(early.elapsed_since(late), Duration::from_seconds(0));
    assert_eq!(early.elapsed_since(early), Duration::from_seconds(0));
}
