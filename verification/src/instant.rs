//! A point in time (UTC) whose nanoseconds always lie within one second.

use vstd::prelude::*;

use crate::error::{TimeError, TimeResult};

verus! {

/// The number of nanoseconds in one second.
pub const NANOS_PER_SEC: u32 = 1_000_000_000;

/// A point in time (UTC).
///
/// - seconds: number of seconds since the Unix epoch (1970-01-01T00:00:00Z)
/// - nanos: number of nanoseconds since the last whole second, always below
///   [`NANOS_PER_SEC`]
///
/// The fields are read through [`Instant::seconds`] and [`Instant::nanos`];
/// an instant is made by [`Instant::new`] or [`Instant::from_timestamp`], so
/// none exists whose nanoseconds reach a full second.
#[derive(Clone, Copy, Debug, PartialEq, Eq, Structural)]
pub struct Instant {
    seconds: u64,
    nanos: u32,
}

impl Instant {
    /// The seconds since the Unix epoch, in contracts.
    pub closed spec fn spec_seconds(&self) -> u64 {
        self.seconds
    }

    /// The nanoseconds since the last whole second, in contracts.
    pub closed spec fn spec_nanos(&self) -> u32 {
        self.nanos
    }

    /// Whether the nanoseconds lie within one second. Every instant that a
    /// program holds is valid; contracts over ghost values ask for it.
    pub open spec fn is_valid(&self) -> bool {
        self.nanos() < NANOS_PER_SEC
    }

    #[verifier::type_invariant]
    spec fn within_one_second(self) -> bool {
        self.is_valid()
    }

    /// What [`Instant::new`] returns, in contracts.
    pub closed spec fn spec_new(seconds: u64, nanos: u32) -> TimeResult<Instant> {
        if nanos < NANOS_PER_SEC {
            Ok(Instant { seconds, nanos })
        } else {
            Err(TimeError::InvalidInstant)
        }
    }

    /// What [`Instant::from_timestamp`] returns, in contracts: the instant of
    /// a timestamp from the Unix epoch on whose nanoseconds lie within one
    /// second, and [`TimeError::InvalidTime`] for every other.
    pub open spec fn spec_from_timestamp(secs: i64, nanos: u32) -> TimeResult<Instant> {
        if 0 <= secs && nanos < NANOS_PER_SEC {
            Instant::new(secs as u64, nanos)
        } else {
            Err(TimeError::InvalidTime)
        }
    }

    /// Creates an instant from seconds since the Unix epoch and nanoseconds
    /// since the last whole second.
    ///
    /// Fails with [`TimeError::InvalidInstant`] exactly when `nanos` does not
    /// lie within one second. Any number of seconds is accepted.
    #[verifier::when_used_as_spec(spec_new)]
    pub fn new(seconds: u64, nanos: u32) -> (r: TimeResult<Instant>)
        ensures
            r == Instant::spec_new(seconds, nanos),
            nanos < NANOS_PER_SEC ==> r is Ok && r->Ok_0.seconds() == seconds && r->Ok_0.nanos()
                == nanos,
            nanos >= NANOS_PER_SEC ==> r == Err::<Instant, TimeError>(TimeError::InvalidInstant),
    {
        if nanos >= NANOS_PER_SEC {
            return Err(TimeError::InvalidInstant);
        }
        Ok(Instant { seconds, nanos })
    }

    /// Creates an instant from a signed count of whole seconds since the Unix
    /// epoch and the nanoseconds since the last whole second, as a calendar
    /// time gives them.
    ///
    /// Fails with [`TimeError::InvalidTime`] exactly when the seconds are
    /// negative or the nanoseconds do not lie within one second (as in a leap
    /// second of the calendar).
    #[verifier::when_used_as_spec(spec_from_timestamp)]
    pub fn from_timestamp(secs: i64, nanos: u32) -> (r: TimeResult<Instant>)
        ensures
            r == Instant::spec_from_timestamp(secs, nanos),
            0 <= secs && nanos < NANOS_PER_SEC ==> r is Ok && r->Ok_0.seconds() == secs
                && r->Ok_0.nanos() == nanos,
            secs < 0 || nanos >= NANOS_PER_SEC ==> r == Err::<Instant, TimeError>(
                TimeError::InvalidTime,
            ),
    {
        if secs < 0 || nanos >= NANOS_PER_SEC {
            return Err(TimeError::InvalidTime);
        }
        Ok(Instant { seconds: secs as u64, nanos })
    }

    /// The seconds since the Unix epoch.
    #[verifier::when_used_as_spec(spec_seconds)]
    pub fn seconds(&self) -> (r: u64)
        ensures
            r == self.spec_seconds(),
    {
        self.seconds
    }

    /// The nanoseconds since the last whole second.
    #[verifier::when_used_as_spec(spec_nanos)]
    pub fn nanos(&self) -> (r: u32)
        ensures
            r == self.spec_nanos(),
            r < NANOS_PER_SEC,
    {
        proof {
            use_type_invariant(self);
        }
        self.nanos
    }

    /// Construction keeps both fields: with nanoseconds within one second,
    /// [`Instant::new`] gives a valid instant that holds exactly the seconds
    /// and nanoseconds it was given; with any other it gives
    /// [`TimeError::InvalidInstant`].
    pub proof fn lemma_new(seconds: u64, nanos: u32)
        ensures
            nanos < NANOS_PER_SEC ==> Instant::new(seconds, nanos) is Ok && Instant::new(
                seconds,
                nanos,
            )->Ok_0.seconds() == seconds && Instant::new(seconds, nanos)->Ok_0.nanos() == nanos
                && Instant::new(seconds, nanos)->Ok_0.is_valid(),
            nanos >= NANOS_PER_SEC ==> Instant::new(seconds, nanos) == Err::<Instant, TimeError>(
                TimeError::InvalidInstant,
            ),
    {
    }

    /// Instants are compared on both fields: two are equal exactly when
    /// their seconds and their nanoseconds are.
    pub proof fn lemma_equal_by_fields(a: Instant, b: Instant)
        ensures
            a == b <==> a.seconds() == b.seconds() && a.nanos() == b.nanos(),
    {
    }
}

} // verus!
