//! Points in time, and the calendar arithmetic that `chrono` does for the library.

use vstd::prelude::*;

verus! {

/// A point in time together with the offset of the clock that reported it.
///
/// `secs` and `nanos` count from 1970-01-01T00:00:00 UTC; `nanos` may pass one
/// second during a leap second. `offset` is local time minus UTC, in seconds.
#[derive(Clone, Copy, Debug, PartialEq, Eq, Structural)]
pub struct Timestamp {
    pub secs: i64,
    pub nanos: u32,
    pub offset: i32,
}

impl Timestamp {
    /// Two timestamps name the same instant when no time lies between them,
    /// whatever their offsets.
    pub open spec fn same_instant(self, other: Timestamp) -> bool {
        self.secs == other.secs && self.nanos == other.nanos
    }

    /// Whether two timestamps name the same instant.
    pub fn is_same_instant(&self, other: &Timestamp) -> (r: bool)
        ensures
            r == self.same_instant(*other),
    {
        self.secs == other.secs && self.nanos == other.nanos
    }
}

/// The instant that an RFC 3339 date-and-time text names, with the offset it is
/// written in; `None` where the text is no such date and time.
pub uninterp spec fn rfc3339_instant(text: Seq<char>) -> Option<Timestamp>;

/// The calendar year in which `t` falls on a clock with `t`'s own offset.
pub uninterp spec fn civil_year(t: Timestamp) -> Option<i32>;

/// The calendar month, from 1 to 12, in which `t` falls on a clock with `t`'s
/// own offset.
pub uninterp spec fn civil_month(t: Timestamp) -> Option<u32>;

/// The instant at which a UTC clock shows the given date and time of day.
pub uninterp spec fn utc_instant(
    year: i32,
    month: u32,
    day: u32,
    hour: u32,
    minute: u32,
    second: u32,
) -> Option<Timestamp>;

/// Whether `year` is a leap year of the Gregorian calendar, carried back before
/// its introduction.
pub open spec fn is_leap_year(year: int) -> bool {
    year % 4 == 0 && (year % 100 != 0 || year % 400 == 0)
}

/// Whether the calendar has the day `day` of the month `month` of `year`.
pub open spec fn is_calendar_date(year: int, month: int, day: int) -> bool {
    &&& 1 <= month <= 12
    &&& 1 <= day
    &&& day <= (if month == 2 {
        if is_leap_year(year) {
            29int
        } else {
            28int
        }
    } else if month == 4 || month == 6 || month == 9 || month == 11 {
        30int
    } else {
        31int
    })
}

/// Whether a clock shows `hour:minute:second`.
pub open spec fn is_time_of_day(hour: int, minute: int, second: int) -> bool {
    0 <= hour <= 23 && 0 <= minute <= 59 && 0 <= second <= 59
}

/// The years whose dates `chrono` holds.
pub open spec fn is_year_in_range(year: int) -> bool {
    -262_143 <= year <= 262_142
}

/// Trusted: `chrono::DateTime::parse_from_rfc3339` reads an RFC 3339 date and
/// time. The result is kept as seconds and nanoseconds since the epoch
/// (`timestamp`, `timestamp_subsec_nanos`) and the parsed offset
/// (`local_minus_utc`).
#[verifier::external_body]
pub(crate) fn parse_rfc3339(text: &str) -> (r: Option<Timestamp>)
    ensures
        r == rfc3339_instant(text@),
{
    match chrono::DateTime::parse_from_rfc3339(text) {
        Ok(t) => Some(
            Timestamp {
                secs: t.timestamp(),
                nanos: t.timestamp_subsec_nanos(),
                offset: t.offset().local_minus_utc(),
            },
        ),
        Err(_) => None,
    }
}

/// Trusted: `chrono::Datelike::year` of the `DateTime<FixedOffset>` that `t`
/// stands for (`DateTime::from_timestamp`, `FixedOffset::east_opt`,
/// `with_timezone`); `None` where `chrono` cannot represent `t`. A year of
/// `chrono` stays far inside the range of `i32`.
#[verifier::external_body]
pub(crate) fn local_year(t: &Timestamp) -> (r: Option<i32>)
    ensures
        r == civil_year(*t),
        r matches Some(y) ==> i32::MIN < y,
{
    let utc = chrono::DateTime::from_timestamp(t.secs, t.nanos)?;
    let zone = chrono::FixedOffset::east_opt(t.offset)?;
    Some(chrono::Datelike::year(&utc.with_timezone(&zone)))
}

/// Trusted: `chrono::Datelike::month` of the `DateTime<FixedOffset>` that `t`
/// stands for, a number from 1 to 12; `None` where `chrono` cannot represent `t`.
#[verifier::external_body]
pub(crate) fn local_month(t: &Timestamp) -> (r: Option<u32>)
    ensures
        r == civil_month(*t),
        r matches Some(m) ==> 1 <= m <= 12,
{
    let utc = chrono::DateTime::from_timestamp(t.secs, t.nanos)?;
    let zone = chrono::FixedOffset::east_opt(t.offset)?;
    Some(chrono::Datelike::month(&utc.with_timezone(&zone)))
}

/// Trusted: `chrono::NaiveDate::from_ymd_opt` followed by
/// `NaiveDate::and_hms_opt`, `and_utc` and `fixed_offset` builds the UTC date and
/// time with the given fields. There is no result where the day does not exist in the calendar
/// or the time of day is not a valid hour, minute and second; a result has no
/// fraction of a second and the offset of UTC. There is a result for every day
/// of the calendar in a year that `chrono` holds and every time of day, and it
/// falls in the year and the month that were given.
#[verifier::external_body]
pub(crate) fn utc_timestamp(
    year: i32,
    month: u32,
    day: u32,
    hour: u32,
    minute: u32,
    second: u32,
) -> (r: Option<Timestamp>)
    ensures
        r == utc_instant(year, month, day, hour, minute, second),
        r is Some ==> 1 <= month <= 12 && 1 <= day <= 31 && hour <= 23 && minute <= 59 && second
            <= 59,
        r matches Some(t) ==> t.nanos == 0 && t.offset == 0,
        r matches Some(t) ==> civil_year(t) == Some(year) && civil_month(t) == Some(month),
        is_year_in_range(year as int) && is_calendar_date(year as int, month as int, day as int)
            && is_time_of_day(hour as int, minute as int, second as int) ==> r is Some,
{
    let date = chrono::NaiveDate::from_ymd_opt(year, month, day)?;
    let t = date.and_hms_opt(hour, minute, second)?.and_utc().fixed_offset();
    Some(
        Timestamp {
            secs: t.timestamp(),
            nanos: t.timestamp_subsec_nanos(),
            offset: t.offset().local_minus_utc(),
        },
    )
}

} // verus!
