use chrono::{DateTime, TimeZone, Utc};
use crux_bridge::calendar::{UtcDateTime, MAX_UTC_TIMESTAMP};
use crux_bridge::error::TimeError;
use crux_bridge::instant::Instant;

#[test]
fn instant_to_datetime_utc() {
    let instant = Instant::new(1_000_000_000, 10).unwrap();
    let chrono_time: UtcDateTime = instant.try_into().unwrap();
    assert_eq!(chrono_time.0.timestamp(), 1_000_000_000);
    assert_eq!(chrono_time.0.timestamp_subsec_nanos(), 10);
}

#[test]
fn datetime_utc_to_instant() {
    let chrono_time: DateTime<Utc> = Utc.timestamp_opt(1_000_000_000, 10).unwrap();
    let instant: Instant = UtcDateTime(chrono_time).try_into().unwrap();
    assert_eq!(instant.seconds(), 1_000_000_000);
    assert_eq!(instant.nanos(), 10);
}

#[test]
fn the_epoch_converts_both_ways() {
    let time = UtcDateTime::try_from(Instant::new(0, 0).unwrap()).unwrap();
    assert_eq!(time.0, DateTime::from_timestamp(0, 0).unwrap());
    assert_eq!(Instant::try_from(time), Ok(Instant::new(0, 0).unwrap()));
}

#[test]
fn calendar_time_is_the_one_chrono_makes() {
    let time = UtcDateTime::try_from(Instant::new(1_431_648_000, 0).unwrap()).unwrap();
    assert_eq!(time.0, Utc.with_ymd_and_hms(2015, 5, 15, 0, 0, 0).unwrap());
    let late = UtcDateTime::try_from(Instant::new(86_399, 999_999_999).unwrap()).unwrap();
    assert_eq!(late.0.timestamp(), 86_399);
    assert_eq!(late.0.timestamp_subsec_nanos(), 999_999_999);
}

#[test]
fn largest_calendar_time_is_reached() {
    assert_eq!(MAX_UTC_TIMESTAMP, 8_210_266_876_799);
    assert_eq!(DateTime::<Utc>::MAX_UTC.timestamp(), MAX_UTC_TIMESTAMP);
    let last = Instant::new(8_210_266_876_799, 999_999_999).unwrap();
    let time = UtcDateTime::try_from(last).unwrap();
    assert_eq!(time.0, DateTime::<Utc>::MAX_UTC);
    assert_eq!(time.0.timestamp(), 8_210_266_876_799);
    assert_eq!(time.0.timestamp_subsec_nanos(), 999_999_999);
}

#[test]
fn seconds_beyond_the_calendar_are_an_invalid_instant() {
    for seconds in [
        8_210_266_876_800,
        8_210_266_876_801,
        9_223_372_036_854_775_807,
        9_223_372_036_854_775_808,
        u64::MAX,
    ] {
        for nanos in [0, 10, 999_999_999] {
            let instant = Instant::new(seconds, nanos).unwrap();
            assert_eq!(UtcDateTime::try_from(instant).unwrap_err(), TimeError::InvalidInstant);
        }
    }
}

#[test]
fn calendar_time_before_the_epoch_is_an_invalid_time() {
    let just_before = UtcDateTime(DateTime::from_timestamp(-1, 999_999_999).unwrap());
    assert_eq!(Instant::try_from(just_before), Err(TimeError::InvalidTime));
    let long_before = UtcDateTime(Utc.with_ymd_and_hms(1969, 7, 20, 20, 17, 40).unwrap());
    assert_eq!(Instant::try_from(long_before), Err(TimeError::InvalidTime));
    let first = UtcDateTime(DateTime::<Utc>::MIN_UTC);
    assert_eq!(Instant::try_from(first), Err(TimeError::InvalidTime));
}

#[test]
fn calendar_time_within_a_leap_second_is_an_invalid_time() {
    let leap = DateTime::from_timestamp(1_483_228_799, 1_500_000_000).unwrap();
    assert_eq!(leap.timestamp_subsec_nanos(), 1_500_000_000);
    assert_eq!(Instant::try_from(UtcDateTime(leap)), Err(TimeError::InvalidTime));
}

#[test]
fn round_trip_returns_the_original() {
    let cases: [(u64, u32); 6] = [
        (0, 0),
        (1, 999_999_999),
        (59, 1),
        (1_000_000_000, 10),
        (4_102_444_800, 123_456_789),
        (8_210_266_876_799, 999_999_999),
    ];
    for (seconds, nanos) in cases {
        let instant = Instant::new(seconds, nanos).unwrap();
        let time = UtcDateTime::try_from(instant).unwrap();
        assert_eq!(Instant::try_from(time), Ok(instant));
    }
}

#[test]
fn round_trip_from_the_calendar_returns_the_same_time() {
    let time = Utc.with_ymd_and_hms(2038, 1, 19, 3, 14, 8).unwrap();
    let instant = Instant::try_from(UtcDateTime(time)).unwrap();
    assert_eq!(instant.seconds(), 2_147_483_648);
    assert_eq!(instant.nanos(), 0);
    assert_eq!(UtcDateTime::try_from(instant).unwrap().0, time);
}

#[test]
fn both_directions_refuse_overflow_under_their_own_error() {
    let too_late = Instant::new(u64::MAX, 0).unwrap();
    assert_eq!(UtcDateTime::try_from(too_late).unwrap_err(), TimeError::InvalidInstant);
    let too_early = UtcDateTime(DateTime::from_timestamp(-1, 0).unwrap());
    assert_eq!(Instant::try_from(too_early).unwrap_err(), TimeError::InvalidTime);
}
