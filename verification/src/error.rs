//! The recoverable errors of the time values.

use vstd::prelude::*;

verus! {

/// What can go wrong when an instant is built or converted.
#[derive(Clone, Copy, Debug, PartialEq, Eq, Structural)]
pub enum TimeError {
    /// The nanoseconds do not lie within one second, or the instant lies
    /// beyond what a calendar time can hold.
    InvalidInstant,
    /// A calendar time lies beyond what an instant can hold.
    InvalidTime,
}

/// The result of an operation on time values.
pub type TimeResult<T> = Result<T, TimeError>;

} // verus!
