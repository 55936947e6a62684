//! The two clocks the service reads: the monotonic clock that times a batch
//! and the wall clock that stamps a health report.
//!
//! Everything here is taken on trust from `std` and `chrono`. Nothing is
//! claimed of an instant or a duration; of the wall clock's text only its
//! shape.

use std::time::Duration;
use std::time::Instant;
use vstd::prelude::*;

verus! {

/// `std::time::Instant`, a point on the monotonic clock. It is carried from
/// the start of a measurement to its end and never looked into.
#[verifier::external_type_specification]
#[verifier::external_body]
pub struct ExInstant(std::time::Instant);

/// `std::time::Instant::now` reads the monotonic clock. Nothing is claimed of
/// the instant it returns.
pub assume_specification[ std::time::Instant::now ]() -> Instant;

/// `std::time::Instant::elapsed` gives the time that has passed since the
/// instant was taken. Nothing is claimed of the duration it returns.
pub assume_specification[ std::time::Instant::elapsed ](start: &Instant) -> Duration;

/// `std::time::Duration::as_millis` gives the whole milliseconds in a
/// duration. Nothing is claimed of the number it returns.
pub assume_specification[ std::time::Duration::as_millis ](duration: &Duration) -> u128;

/// What holds of every UTC time that is written as an RFC 3339 date and
/// time: it has at least a date, a time of day to the second and an offset,
/// 25 characters in all, and the offset is written `+00:00`.
pub open spec fn is_utc_stamp(text: Seq<char>) -> bool {
    &&& text.len() >= 25
    &&& text.subrange(text.len() - 6, text.len() as int) == "+00:00"@
}

/// `std::time::SystemTime::now`, turned into a `chrono::DateTime<Utc>` by
/// chrono's `From<SystemTime>` and written out by `DateTime::to_rfc3339`: the
/// wall clock's current UTC time as an RFC 3339 date and time. The claim is
/// the shape that `to_rfc3339` gives every UTC time; that the time is the
/// current one is not claimed. The conversion accepts a clock that is set
/// before the Unix epoch; it gives up only on a time that is hundreds of
/// thousands of years away from it.
#[verifier::external_body]
pub(crate) fn utc_timestamp() -> (stamp: String)
    ensures
        is_utc_stamp(stamp@),
{
    chrono::DateTime::<chrono::Utc>::from(std::time::SystemTime::now()).to_rfc3339()
}

} // verus!
