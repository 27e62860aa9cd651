//! The look-back window of a search: from some minutes ago until now.

use vstd::prelude::*;

verus! {

/// A moment in UTC: whole seconds since 1970-01-01T00:00:00Z, and the nanoseconds
/// that have passed of the second after.
#[derive(Debug, Clone, Copy, PartialEq, Eq)]
pub struct Instant {
    pub seconds: i64,
    pub nanos: u32,
}

/// The RFC 3339 text of the moment that lies `nanos` nanoseconds after `seconds`
/// seconds since the epoch, in UTC; `None` where the calendar cannot hold the moment.
pub uninterp spec fn rfc3339(seconds: i64, nanos: u32) -> Option<Seq<char>>;

/// Formats a moment with `chrono::DateTime::<Utc>::to_rfc3339`, after
/// `chrono::DateTime::from_timestamp` has made the moment from its two numbers.
///
/// Trusted: the text depends on the two numbers alone, and there is none exactly
/// when `from_timestamp` refuses them.
#[verifier::external_body]
fn to_rfc3339(seconds: i64, nanos: u32) -> (text: Option<String>)
    ensures
        text.deep_view() == rfc3339(seconds, nanos),
{
    match chrono::DateTime::from_timestamp(seconds, nanos) {
        Some(moment) => Some(moment.to_rfc3339()),
        None => None,
    }
}

/// The moment `minutes` minutes before `now`, if its seconds fit in 64 bits.
pub open spec fn floor_of(now: Instant, minutes: i64) -> Option<Instant> {
    let seconds = now.seconds - 60 * minutes;
    if i64::MIN <= seconds <= i64::MAX {
        Some(Instant { seconds: seconds as i64, nanos: now.nanos })
    } else {
        None
    }
}

/// The `start_time` of a search that looks `minutes` minutes back from `now`.
pub open spec fn start_time_of(now: Instant, minutes: i64) -> Option<Seq<char>> {
    match floor_of(now, minutes) {
        Some(floor) => rfc3339(floor.seconds, floor.nanos),
        None => None,
    }
}

/// The lower end of the window `[now - minutes, now)`.
pub fn window_floor(now: Instant, minutes: i64) -> (floor: Option<Instant>)
    ensures
        floor == floor_of(now, minutes),
{
    let seconds: i128 = now.seconds as i128 - 60 * (minutes as i128);
    if seconds < i64::MIN as i128 || seconds > i64::MAX as i128 {
        None
    } else {
        Some(Instant { seconds: seconds as i64, nanos: now.nanos })
    }
}

/// The lower end of the window `[now - minutes, now)` as RFC 3339 text, the form
/// in which a search request carries it.
pub fn start_time(now: Instant, minutes: i64) -> (text: Option<String>)
    ensures
        text.deep_view() == start_time_of(now, minutes),
{
    match window_floor(now, minutes) {
        Some(floor) => to_rfc3339(floor.seconds, floor.nanos),
        None => None,
    }
}

} // verus!
