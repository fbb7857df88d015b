//! Instants on the proleptic Gregorian calendar: which are representable,
//! on which weekday one falls in a given zone, and how one is written out.

use vstd::prelude::*;
use chrono::Datelike;
use crate::timezone::TimezoneOffset;

verus! {

/// The first second that the calendar represents: midnight UTC at the start
/// of the year -262143.
pub const MIN_INSTANT: i64 = -8_334_601_228_800;

/// The last second that the calendar represents: the last second UTC of the
/// year 262142.
pub const MAX_INSTANT: i64 = 8_210_266_876_799;

/// Whether a number of seconds since the epoch is an instant of the calendar.
pub open spec fn is_instant(secs: int) -> bool {
    MIN_INSTANT <= secs <= MAX_INSTANT
}

/// A point in time that the calendar represents, as whole seconds since
/// 1970-01-01 00:00:00 UTC. Its view is that number of seconds.
#[derive(Clone, Copy, Debug)]
pub struct Instant {
    secs: i64,
}

impl View for Instant {
    type V = int;

    closed spec fn view(&self) -> int {
        self.secs as int
    }
}

impl Instant {
    #[verifier::type_invariant]
    spec fn representable(self) -> bool {
        is_instant(self.secs as int)
    }

    /// The instant `secs` seconds after the epoch; `None` where the calendar
    /// does not reach that far.
    pub fn from_timestamp(secs: i64) -> (r: Option<Self>)
        ensures
            r is Some <==> is_instant(secs as int),
            r matches Some(at) ==> at@ == secs,
    {
        if MIN_INSTANT <= secs && secs <= MAX_INSTANT {
            Some(Instant { secs })
        } else {
            None
        }
    }

    /// The seconds since the epoch.
    pub fn timestamp(&self) -> (secs: i64)
        ensures
            secs == self@,
            is_instant(secs as int),
    {
        proof {
            use_type_invariant(self);
        }
        self.secs
    }
}

/// The weekday, Monday = 0 to Sunday = 6, on which the instant `instant`
/// falls on a clock that needs `utc_minus_local` seconds added to show UTC.
/// The epoch fell on a Thursday.
pub open spec fn weekday_index(instant: int, utc_minus_local: int) -> int {
    ((instant - utc_minus_local) / 86400 + 3) % 7
}

/// The text that writes out the instant `instant` as year, month, day, hour
/// and minute on a clock that needs `utc_minus_local` seconds added to show
/// UTC.
pub uninterp spec fn local_display(instant: int, utc_minus_local: int) -> Seq<char>;

/// The weekday of an instant in a zone, as chrono finds it: the instant is
/// made a `DateTime<Utc>` with `DateTime::from_timestamp`, moved to the zone
/// with `DateTime::with_timezone`, and asked for `Datelike::weekday`, counted
/// from Monday by `Weekday::num_days_from_monday`. The contract claims that
/// chrono's answer is the weekday of the proleptic Gregorian calendar, which
/// `weekday_index` computes from the day number.
#[verifier::external_body]
pub(crate) fn local_weekday(at: Instant, zone: TimezoneOffset) -> (day: u32)
    ensures
        day == weekday_index(at@, zone@),
{
    let zone = chrono::FixedOffset::west_opt(zone.utc_minus_local()).unwrap();
    let utc = chrono::DateTime::from_timestamp(at.timestamp(), 0).unwrap();
    utc.with_timezone(&zone).weekday().num_days_from_monday()
}

/// An instant written out in a zone by chrono: `DateTime::format` with the
/// pattern `%Y-%m-%d %H:%M`, on the `DateTime<FixedOffset>` that
/// `DateTime::from_timestamp` and `DateTime::with_timezone` give. The contract
/// claims only that the text is a function of the instant and the offset.
#[verifier::external_body]
pub(crate) fn render_local(at: Instant, zone: TimezoneOffset) -> (s: String)
    ensures
        s@ == local_display(at@, zone@),
{
    let zone = chrono::FixedOffset::west_opt(zone.utc_minus_local()).unwrap();
    let utc = chrono::DateTime::from_timestamp(at.timestamp(), 0).unwrap();
    utc.with_timezone(&zone).format("%Y-%m-%d %H:%M").to_string()
}

/// The weekday, Monday = 0 to Sunday = 6, of an instant in a zone.
pub fn weekday_in(at: Instant, zone: TimezoneOffset) -> (day: u32)
    ensures
        day == weekday_index(at@, zone@),
        day <= 6,
{
    local_weekday(at, zone)
}

/// Writes out the time `secs` seconds after the epoch as it reads in a zone;
/// `None` where the calendar does not reach that far.
pub fn format_datetime(secs: i64, zone: TimezoneOffset) -> (r: Option<String>)
    ensures
        r is Some <==> is_instant(secs as int),
        r matches Some(s) ==> s@ == local_display(secs as int, zone@),
{
    match Instant::from_timestamp(secs) {
        Some(at) => Some(render_local(at, zone)),
        None => None,
    }
}

/// A weekday is one of seven.
pub proof fn weekday_index_in_week(instant: int, utc_minus_local: int)
    ensures
        0 <= weekday_index(instant, utc_minus_local) <= 6,
{
}

/// The weekday is that of the local clock: an instant and a zone give the
/// weekday that UTC has at the instant moved by the offset.
pub proof fn weekday_index_is_local(instant: int, utc_minus_local: int)
    ensures
        weekday_index(instant, utc_minus_local) == weekday_index(instant - utc_minus_local, 0),
{
}

/// One day later the weekday is the next one, and Monday follows Sunday.
pub proof fn weekday_index_next_day(instant: int, utc_minus_local: int)
    ensures
        weekday_index(instant + 86400, utc_minus_local) == (weekday_index(instant, utc_minus_local)
            + 1) % 7,
{
}

} // verus!
