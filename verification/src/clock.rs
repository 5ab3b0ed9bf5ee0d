//! The current time, and how it is written.
use chrono::{DateTime, Utc};
use vstd::prelude::*;

verus! {

/// A moment: whole seconds since the Unix epoch, and nanoseconds on top of them.
#[derive(Clone, Copy, Debug, PartialEq, Eq, Structural)]
pub struct Timestamp {
    pub secs: i64,
    pub nanos: u32,
}

/// How a moment in UTC is written by RFC 3339; `None` for numbers that make no moment
/// of the calendar.
pub uninterp spec fn rfc3339_text(secs: i64, nanos: u32) -> Option<Seq<char>>;

/// `chrono::DateTime::<Utc>::from` on the system's clock, which may stand before the epoch
/// as well as after it. The moment lies in the calendar. Which moment it is depends on the
/// clock, and nothing is claimed of it. The calendar reaches more than two hundred thousand
/// years to either side of the epoch; the call panics only on a clock that stands outside
/// it.
#[verifier::external_body]
fn utc_now() -> (r: Timestamp)
    ensures
        rfc3339_text(r.secs, r.nanos) is Some,
{
    let now = DateTime::<Utc>::from(std::time::SystemTime::now());
    Timestamp { secs: now.timestamp(), nanos: now.timestamp_subsec_nanos() }
}

/// `chrono::DateTime::to_rfc3339` on the moment that `DateTime::from_timestamp` makes of
/// the two numbers, where it makes one.
#[verifier::external_body]
fn to_rfc3339(secs: i64, nanos: u32) -> (r: Option<String>)
    ensures
        r.deep_view() == rfc3339_text(secs, nanos),
{
    let moment = DateTime::<Utc>::from_timestamp(secs, nanos)?;
    Some(moment.to_rfc3339())
}

impl Timestamp {
    /// The current moment. It can be written by RFC 3339.
    pub fn now() -> (r: Timestamp)
        ensures
            rfc3339_text(r.secs, r.nanos) is Some,
    {
        utc_now()
    }

    /// The moment as RFC 3339 writes it in UTC, if it is one of the calendar.
    pub fn rfc3339(self) -> (r: Option<String>)
        ensures
            r.deep_view() == rfc3339_text(self.secs, self.nanos),
    {
        to_rfc3339(self.secs, self.nanos)
    }
}

} // verus!
