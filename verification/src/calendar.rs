//! Conversion between instants and the UTC calendar time of `chrono`.
//!
//! Both directions refuse what the other side cannot hold, under two
//! different errors: towards the calendar [`TimeError::InvalidInstant`],
//! back from it [`TimeError::InvalidTime`].

use chrono::{DateTime, Utc};
use vstd::prelude::*;
use vstd::std_specs::convert::TryFromSpecImpl;

use crate::error::TimeError;
use crate::instant::{Instant, NANOS_PER_SEC};

verus! {

/// A calendar date and time in UTC: a `chrono::DateTime<Utc>`, carried as it
/// is in the one public field.
///
/// `DateTime` is generic over a time zone trait of `chrono` that Verus
/// does not know, so this struct hides what it holds from the proofs.
/// Contracts speak of a calendar time through [`utc_timestamp`] and
/// [`utc_subsec_nanos`].
#[verifier::external_body]
#[derive(Debug)]
pub struct UtcDateTime(pub DateTime<Utc>);

/// The largest number of whole seconds since the Unix epoch that a calendar
/// time holds: the last second of 31 December 262142, the last day that
/// `chrono` has.
pub const MAX_UTC_TIMESTAMP: i64 = 8_210_266_876_799;

/// What `DateTime::timestamp` returns for a UTC calendar time: its whole
/// seconds since the Unix epoch, leap seconds not counted.
pub uninterp spec fn utc_timestamp(time: UtcDateTime) -> i64;

/// What `DateTime::timestamp_subsec_nanos` returns for a UTC calendar time:
/// its nanoseconds since the last whole second. Within a leap second they
/// reach a full second and more.
pub uninterp spec fn utc_subsec_nanos(time: UtcDateTime) -> u32;

/// What `DateTime::from_timestamp` returns for whole seconds since the Unix
/// epoch and nanoseconds since the last whole second.
pub uninterp spec fn utc_from_timestamp(secs: i64, nsecs: u32) -> Option<UtcDateTime>;

/// Whether a calendar time shows an instant: the same whole seconds since the
/// Unix epoch, the same nanoseconds since the last whole second.
pub open spec fn shows(time: UtcDateTime, instant: Instant) -> bool {
    utc_timestamp(time) == instant.seconds() && utc_subsec_nanos(time) == instant.nanos()
}

/// The calendar time that an instant converts into, in contracts: none beyond
/// what a signed count of seconds holds, else what `chrono` makes of the
/// seconds and nanoseconds.
pub open spec fn calendar_time_of(instant: Instant) -> Result<UtcDateTime, TimeError> {
    if instant.seconds() > i64::MAX {
        Err(TimeError::InvalidInstant)
    } else {
        match utc_from_timestamp(instant.seconds() as i64, instant.nanos()) {
            Some(time) => Ok(time),
            None => Err(TimeError::InvalidInstant),
        }
    }
}

/// The instant that a calendar time converts into, in contracts: the one of
/// its whole seconds and its nanoseconds.
pub open spec fn instant_of(time: UtcDateTime) -> Result<Instant, TimeError> {
    Instant::from_timestamp(utc_timestamp(time), utc_subsec_nanos(time))
}

/// Calls `DateTime::timestamp`. Not proved: that the result is the named
/// value of the calendar time.
#[verifier::external_body]
fn timestamp_of(time: &UtcDateTime) -> (r: i64)
    ensures
        r == utc_timestamp(*time),
{
    time.0.timestamp()
}

/// Calls `DateTime::timestamp_subsec_nanos`. Not proved: that the result is
/// the named value of the calendar time.
#[verifier::external_body]
fn subsec_nanos_of(time: &UtcDateTime) -> (r: u32)
    ensures
        r == utc_subsec_nanos(*time),
{
    time.0.timestamp_subsec_nanos()
}

/// Calls `DateTime::from_timestamp`, for seconds from the Unix epoch on and
/// nanoseconds within one second. Not proved: that a calendar time comes
/// back exactly up to [`MAX_UTC_TIMESTAMP`], and that `timestamp` and
/// `timestamp_subsec_nanos` give back from it the seconds and nanoseconds it
/// was made from, which `chrono` documents as a round trip.
#[verifier::external_body]
fn datetime_from_timestamp(secs: i64, nsecs: u32) -> (r: Option<UtcDateTime>)
    requires
        0 <= secs,
        nsecs < NANOS_PER_SEC,
    ensures
        r == utc_from_timestamp(secs, nsecs),
        r is Some <==> secs <= MAX_UTC_TIMESTAMP,
        r matches Some(time) ==> utc_timestamp(time) == secs && utc_subsec_nanos(time) == nsecs,
{
    match DateTime::from_timestamp(secs, nsecs) {
        Some(time) => Some(UtcDateTime(time)),
        None => None,
    }
}

impl TryFromSpecImpl<Instant> for UtcDateTime {
    open spec fn obeys_try_from_spec() -> bool {
        true
    }

    open spec fn try_from_spec(v: Instant) -> Result<Self, TimeError> {
        calendar_time_of(v)
    }
}

impl TryFrom<Instant> for UtcDateTime {
    type Error = TimeError;

    /// The calendar time of an instant.
    ///
    /// Succeeds exactly when the seconds of the instant do not exceed
    /// [`MAX_UTC_TIMESTAMP`], and fails with [`TimeError::InvalidInstant`]
    /// otherwise. The calendar time shows the seconds and nanoseconds of the
    /// instant, and converts back into the same instant.
    fn try_from(time: Instant) -> (r: Result<UtcDateTime, TimeError>)
        ensures
            r is Ok <==> time.seconds() <= MAX_UTC_TIMESTAMP,
            r == calendar_time_of(time),
            r matches Ok(shown) ==> shows(shown, time) && instant_of(shown) == Ok::<
                Instant,
                TimeError,
            >(time),
            r matches Err(e) ==> e == TimeError::InvalidInstant,
    {
        let seconds: u64 = time.seconds();
        let nanos: u32 = time.nanos();
        if seconds > i64::MAX as u64 {
            return Err(TimeError::InvalidInstant);
        }
        match datetime_from_timestamp(seconds as i64, nanos) {
            Some(shown) => {
                proof {
                    lemma_round_trip(time, shown);
                }
                Ok(shown)
            },
            None => Err(TimeError::InvalidInstant),
        }
    }
}

impl TryFromSpecImpl<UtcDateTime> for Instant {
    open spec fn obeys_try_from_spec() -> bool {
        true
    }

    open spec fn try_from_spec(v: UtcDateTime) -> Result<Self, TimeError> {
        instant_of(v)
    }
}

impl TryFrom<UtcDateTime> for Instant {
    type Error = TimeError;

    /// The instant of a calendar time: its whole seconds since the Unix epoch
    /// and its nanoseconds since the last whole second.
    ///
    /// Fails with [`TimeError::InvalidTime`] exactly when the calendar time
    /// lies before the Unix epoch or within a leap second, where its
    /// nanoseconds do not lie within one second.
    fn try_from(time: UtcDateTime) -> (r: Result<Instant, TimeError>)
        ensures
            r == instant_of(time),
            r is Ok <==> 0 <= utc_timestamp(time) && utc_subsec_nanos(time) < NANOS_PER_SEC,
            r matches Ok(instant) ==> shows(time, instant),
            r matches Err(e) ==> e == TimeError::InvalidTime,
    {
        let secs: i64 = timestamp_of(&time);
        let nanos: u32 = subsec_nanos_of(&time);
        Instant::from_timestamp(secs, nanos)
    }
}

/// The round trip: a calendar time that shows a valid instant converts back
/// into that instant. The calendar time that an instant converts into shows
/// it, so converting there and back gives the instant that one started from.
pub proof fn lemma_round_trip(instant: Instant, time: UtcDateTime)
    requires
        instant.is_valid(),
        shows(time, instant),
    ensures
        instant_of(time) == Ok::<Instant, TimeError>(instant),
{
    Instant::lemma_new(instant.seconds(), instant.nanos());
    Instant::lemma_equal_by_fields(instant_of(time)->Ok_0, instant);
}

} // verus!
