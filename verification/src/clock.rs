//! The system clock.

use vstd::prelude::*;

verus! {

/// One reading of the clock.
#[derive(Debug, Clone, Copy, PartialEq, Eq, Structural)]
pub struct Clock {
    /// Seconds since the epoch.
    pub now: i64,
    /// The part of the current second that has passed, in nanoseconds. It
    /// is the source of the jitter of a poll.
    pub nanos: u32,
}

/// Reads the system clock through std's `SystemTime::elapsed` on
/// `UNIX_EPOCH`, and has chrono make an instant of the reading through
/// `chrono::DateTime::from_timestamp`. There is no reading where the
/// clock of the machine is set before the epoch, or so long after it that
/// chrono has no date for the instant. Nothing is claimed of a reading:
/// the clock of the machine decides it, and it may even lie before an
/// earlier one.
#[verifier::external_body]
pub(crate) fn read_clock() -> (r: Option<Clock>) {
    let since = match std::time::UNIX_EPOCH.elapsed() {
        Ok(since) => since,
        Err(_) => return None,
    };
    let secs = match i64::try_from(since.as_secs()) {
        Ok(secs) => secs,
        Err(_) => return None,
    };
    match chrono::DateTime::from_timestamp(secs, since.subsec_nanos()) {
        Some(instant) => Some(Clock { now: instant.timestamp(), nanos: instant.timestamp_subsec_nanos() }),
        None => None,
    }
}

/// The text that chrono writes for the instant so many seconds after the
/// epoch, in the form of RFC 3339; none for an instant that chrono has no
/// date for.
pub uninterp spec fn rfc3339_text(secs: i64) -> Option<Seq<char>>;

/// The instant that chrono reads from a text in the form of RFC 3339, in
/// whole seconds after the epoch; none for a text that chrono refuses.
pub uninterp spec fn rfc3339_seconds(text: Seq<char>) -> Option<i64>;

/// The error with which chrono refuses a text. Nothing is known of what
/// it holds.
#[verifier::external_type_specification]
#[verifier::external_body]
pub struct ExParseError(chrono::ParseError);

/// Writes an instant through `chrono::DateTime::from_timestamp` and
/// `chrono::DateTime::to_rfc3339`. The text is whatever chrono writes for
/// the instant, and the same whenever it is asked; there is none where
/// `from_timestamp` finds the seconds out of its range.
#[verifier::external_body]
pub(crate) fn write_rfc3339(secs: i64) -> (r: Option<String>)
    ensures
        r.is_some() == rfc3339_text(secs).is_some(),
        r.is_some() ==> r.unwrap()@ == rfc3339_text(secs).unwrap(),
{
    match chrono::DateTime::from_timestamp(secs, 0) {
        Some(instant) => Some(instant.to_rfc3339()),
        None => None,
    }
}

/// Reads an instant through `chrono::DateTime::parse_from_rfc3339` and
/// `chrono::DateTime::timestamp`. The seconds are whatever chrono reads
/// from the text, and the same whenever it is asked.
#[verifier::external_body]
pub(crate) fn read_rfc3339(text: &str) -> (r: Result<i64, chrono::ParseError>)
    ensures
        r.is_ok() == rfc3339_seconds(text@).is_some(),
        r matches Ok(secs) ==> rfc3339_seconds(text@) == Some(secs),
{
    match chrono::DateTime::parse_from_rfc3339(text) {
        Ok(instant) => Ok(instant.timestamp()),
        Err(e) => Err(e),
    }
}

} // verus!
