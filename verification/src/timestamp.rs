//! Calendar instants as plain fields, plus the two trusted bridges to
//! chrono: reading an ISO-8601 timestamp into local time, and rendering
//! it as a relative-time phrase.

use chrono::{DateTime, Datelike, Local, Timelike, Utc};
use chrono_humanize::HumanTime;
use vstd::prelude::*;

verus! {

/// A calendar instant in the machine's local time, held as plain fields.
#[derive(Clone, Copy, Debug, PartialEq, Eq, Structural)]
pub struct Timestamp {
    pub year: i32,
    pub month: u8,
    pub day: u8,
    pub hour: u8,
    pub minute: u8,
    pub second: u8,
}

impl Timestamp {
    /// Field ranges of a calendar date and clock time.
    pub open spec fn wf(self) -> bool {
        &&& 1 <= self.month <= 12
        &&& 1 <= self.day <= 31
        &&& self.hour <= 23
        &&& self.minute <= 59
        &&& self.second <= 59
    }

    /// The placeholder instant standing for "no recorded event":
    /// 1901-01-01 00:00:00.
    pub open spec fn spec_sentinel() -> Timestamp {
        Timestamp { year: 1901, month: 1, day: 1, hour: 0, minute: 0, second: 0 }
    }

    pub fn sentinel() -> (t: Timestamp)
        ensures
            t == Timestamp::spec_sentinel(),
            t.wf(),
    {
        Timestamp { year: 1901, month: 1, day: 1, hour: 0, minute: 0, second: 0 }
    }

    pub fn year(&self) -> (y: i32)
        ensures
            y == self.year,
    {
        self.year
    }

    pub fn month(&self) -> (m: u32)
        ensures
            m == self.month,
    {
        self.month as u32
    }

    pub fn day(&self) -> (d: u32)
        ensures
            d == self.day,
    {
        self.day as u32
    }

    pub fn hour(&self) -> (h: u32)
        ensures
            h == self.hour,
    {
        self.hour as u32
    }

    pub fn minute(&self) -> (m: u32)
        ensures
            m == self.minute,
    {
        self.minute as u32
    }

    pub fn second(&self) -> (s: u32)
        ensures
            s == self.second,
    {
        self.second as u32
    }
}

/// The sentinel rule for a parsed heartbeat reading: a reading that
/// could not be parsed collapses to the sentinel instant, a parsed one
/// stands as it is.
pub fn stamp_or_sentinel(parsed: Option<Timestamp>) -> (t: Timestamp)
    ensures
        parsed matches Some(p) ==> t == p,
        parsed is None ==> t == Timestamp::spec_sentinel(),
{
    match parsed {
        Some(p) => p,
        None => Timestamp::sentinel(),
    }
}

/// Relies on chrono: `str::parse::<DateTime<Utc>>` reads an ISO-8601 /
/// RFC 3339 timestamp and `DateTime::with_timezone` moves it to the
/// machine's local offset.  The field ranges are those chrono's
/// `Datelike` / `Timelike` accessors guarantee.  The value depends on the
/// machine's time zone, so nothing more is claimed of the fields.
#[verifier::external_body]
pub(crate) fn parse_to_local(s: &str) -> (r: Option<Timestamp>)
    ensures
        r matches Some(t) ==> t.wf(),
{
    let parsed: DateTime<Utc> = match s.parse() {
        Ok(d) => d,
        Err(_) => return None,
    };
    let l = parsed.with_timezone(&Local);
    Some(Timestamp {
        year: l.year(),
        month: l.month() as u8,
        day: l.day() as u8,
        hour: l.hour() as u8,
        minute: l.minute() as u8,
        second: l.second() as u8,
    })
}

/// Relies on chrono (`str::parse::<DateTime<Utc>>`, `with_timezone`) and
/// chrono-humanize's `HumanTime` display: every phrase it renders comes
/// from a fixed set of English templates ("now", "3 minutes ago",
/// "in a month", ...), so the phrase is never empty and never the literal
/// "never".  The phrase depends on the clock, so nothing more is claimed.
#[verifier::external_body]
pub(crate) fn humanize_to_phrase(s: &str) -> (r: Option<String>)
    ensures
        r matches Some(h) ==> h@.len() > 0 && h@ != "never"@,
{
    let parsed: DateTime<Utc> = match s.parse() {
        Ok(d) => d,
        Err(_) => return None,
    };
    let l = parsed.with_timezone(&Local);
    Some(format!("{}", HumanTime::from(l)))
}

} // verus!
