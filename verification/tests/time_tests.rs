use avcore::time::{TimeBase, Timestamp};

#[test]
fn millis_to_micros_round_trip() {
    let millis = TimeBase::new(1, 1000);
    let micros = TimeBase::new(1, 1000000);
    let t = Timestamp::new(1500, millis);
    let converted = t.with_time_base(micros);
    assert_eq!(converted.timestamp(), 1_500_000);
    assert_eq!(converted.time_base().num(), 1);
    assert_eq!(converted.time_base().den(), 1_000_000);
    let back = converted.with_time_base(millis);
    assert_eq!(back.timestamp(), 1500);
    assert_eq!(back.time_base(), millis);
}

#[test]
fn rescale_rounds_half_away_from_zero() {
    let half = TimeBase::new(1, 2);
    let third = TimeBase::new(1, 3);
    // 0.5 s is 1.5 ticks of 1/3 s: rounds away from zero to 2
    assert_eq!(Timestamp::new(1, half).with_time_base(third).timestamp(), 2);
    assert_eq!(Timestamp::new(-1, half).with_time_base(third).timestamp(), -2);
}

#[test]
fn null_stays_null_after_rescale() {
    let millis = TimeBase::new(1, 1000);
    let t = Timestamp::null();
    assert!(t.is_null());
    let converted = t.with_time_base(millis);
    assert!(converted.is_null());
    assert_eq!(converted.time_base(), millis);
    assert_eq!(converted.as_micros(), None);
    assert_eq!(converted.as_seconds(), None);
}

#[test]
fn non_null_timestamps_are_not_null() {
    let millis = TimeBase::new(1, 1000);
    assert!(!Timestamp::new(0, millis).is_null());
    assert!(!Timestamp::new(-1, millis).is_null());
}

#[test]
fn as_micros_exact_value() {
    let millis = TimeBase::new(1, 1000);
    assert_eq!(Timestamp::new(5, millis).as_micros(), Some(5000));
    assert_eq!(Timestamp::new(0, millis).as_micros(), Some(0));
}

#[test]
fn as_seconds_rounds() {
    let millis = TimeBase::new(1, 1000);
    // 2.5 s rounds half away from zero to 3 s
    assert_eq!(Timestamp::new(2500, millis).as_seconds(), Some(3));
    assert_eq!(Timestamp::new(2499, millis).as_seconds(), Some(2));
    assert_eq!(Timestamp::new(-2500, millis).as_seconds(), Some(-3));
}

#[test]
fn time_bases_compare_exactly_without_reduction() {
    assert_eq!(TimeBase::new(1, 2), TimeBase::new(1, 2));
    assert_ne!(TimeBase::new(1, 2), TimeBase::new(2, 4));
}

#[test]
fn rescale_saturates_instead_of_overflowing() {
    let seconds = TimeBase::new(1, 1);
    let micros = TimeBase::new(1, 1000000);
    let t = Timestamp::new(i64::MAX, seconds).with_time_base(micros);
    assert_eq!(t.timestamp(), i64::MAX);
    assert!(!t.is_null());
    let t = Timestamp::new(i64::MIN + 1, seconds).with_time_base(micros);
    assert_eq!(t.timestamp(), i64::MIN + 1);
    assert!(!t.is_null());
}

#[test]
fn microseconds_constant() {
    let us = TimeBase::microseconds();
    assert_eq!(us.num(), 1);
    assert_eq!(us.den(), 1_000_000);
}
