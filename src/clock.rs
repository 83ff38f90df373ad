//! Wall-clock time and RFC 3339 timestamps, read through chrono. Times are
//! whole seconds since the Unix epoch.

use vstd::prelude::*;

verus! {

/// The instant an RFC 3339 text denotes, in seconds since the Unix epoch, or
/// `None` when the text is not RFC 3339.
pub uninterp spec fn rfc3339_seconds(text: Seq<char>) -> Option<i64>;

/// Relies on chrono's `DateTime::parse_from_rfc3339`, which accepts exactly
/// the RFC 3339 texts, and `DateTime::timestamp`, the parsed instant in whole
/// seconds since the epoch.
#[verifier::external_body]
pub(crate) fn parse_rfc3339(text: &str) -> (r: Option<i64>)
    ensures
        r == rfc3339_seconds(text@),
{
    match chrono::DateTime::parse_from_rfc3339(text) {
        Ok(t) => Some(t.timestamp()),
        Err(_) => None,
    }
}

/// Relies on std's `SystemTime::now` and `SystemTime::duration_since`: how
/// far the clock stands from the Unix epoch, as (after the epoch, whole
/// seconds, nanoseconds); a `Duration` keeps its nanoseconds below one
/// billion.
#[verifier::external_body]
fn system_clock() -> (r: (bool, u64, u32))
    ensures
        r.2 < 1_000_000_000,
{
    match std::time::SystemTime::now().duration_since(std::time::UNIX_EPOCH) {
        Ok(d) => (true, d.as_secs(), d.subsec_nanos()),
        Err(e) => (false, e.duration().as_secs(), e.duration().subsec_nanos()),
    }
}

/// The last second of the year 9999, the latest instant RFC 3339 text can
/// carry.
pub const LAST_RFC3339_SECOND: i64 = 253402300799;

/// Relies on chrono's `DateTime::from_timestamp`, which gives the instant for
/// any time within chrono's range and `None` beyond it, and
/// `DateTime::to_rfc3339`, which writes four-digit years up to 9999 in the
/// form `DateTime::parse_from_rfc3339` reads back to the same second.
#[verifier::external_body]
fn rfc3339_at(seconds: i64, nanos: u32) -> (r: Option<String>)
    requires
        nanos < 1_000_000_000,
    ensures
        0 <= seconds <= LAST_RFC3339_SECOND ==> r.is_some() && rfc3339_seconds(r.unwrap()@) == Some(seconds),
{
    match chrono::DateTime::from_timestamp(seconds, nanos) {
        Some(t) => Some(t.to_rfc3339()),
        None => None,
    }
}

/// The current time, as whole seconds since the epoch (rounded down) and as
/// RFC 3339 text; the text is empty when the clock stands beyond what a
/// timestamp can carry.
pub struct Now {
    pub seconds: i64,
    pub text: String,
}

/// The current time. Seconds saturate at the bounds of `i64`.
pub fn now() -> (r: Now)
    ensures
        0 <= r.seconds <= LAST_RFC3339_SECOND ==> rfc3339_seconds(r.text@) == Some(r.seconds),
{
    let (after, secs, nanos) = system_clock();
    let (seconds, subsec): (i64, u32) = if after {
        if secs <= i64::MAX as u64 {
            (secs as i64, nanos)
        } else {
            (i64::MAX, 0)
        }
    } else if secs >= i64::MAX as u64 {
        (i64::MIN, 0)
    } else if nanos == 0 {
        (-(secs as i64), 0)
    } else {
        (-(secs as i64) - 1, 1_000_000_000 - nanos)
    };
    let text = match rfc3339_at(seconds, subsec) {
        Some(t) => t,
        None => String::new(),
    };
    Now { seconds, text }
}

} // verus!
