//! The schedule command: which airings to ask for, and how to show them.

use vstd::prelude::*;
use vstd::string::*;
use crate::calendar::Instant;
use crate::day::{resolved_day, DayResolver};
use crate::event::{all_on_calendar, rows_show, schedule_rows, RawAiring, ScheduleRow};
use crate::relative::{magnitude, relative_text, RelativeTimeFormatter};
use crate::text::{
    borrowed, owned_text_of, push_two_digits, to_uppercase, two_digits, uppercase_of,
};
use crate::timezone::{
    is_valid_offset, resolved_offset, resolved_warning, Resolution, TimezoneOffset,
    TimezoneResolver,
};
use crate::window::{window_end, window_start, TimeWindow, WindowCalculator, SECONDS_PER_DAY};

verus! {

/// An offset written as a label: `UTC`, the sign of the seconds from local
/// time to UTC, and their hours and minutes in two digits each.
pub open spec fn offset_label(utc_minus_local: int) -> Seq<char> {
    let sign = if utc_minus_local >= 0 {
        "+"@
    } else {
        "-"@
    };
    let distance = magnitude(utc_minus_local);
    "UTC"@ + sign + two_digits(distance / 3600) + ":"@ + two_digits((distance % 3600) / 60)
}

/// The name under which the zone of a schedule is shown: the requested name
/// in upper case where one was given, understood or not, and otherwise the
/// label of the offset in use.
pub open spec fn zone_label(requested: Option<Seq<char>>, utc_minus_local: int) -> Seq<char> {
    match requested {
        Some(name) => uppercase_of(name),
        None => offset_label(utc_minus_local),
    }
}

/// The heading of the schedule's first column.
pub open spec fn schedule_heading(label: Seq<char>) -> Seq<char> {
    "Schedule ("@ + label + ")"@
}

/// Whether `plan` is what `command` settles for a request made at `now` on a
/// machine whose clock needs `local` seconds added to show UTC.
pub open spec fn plans(command: ScheduleCommand, now: int, local: int, plan: SchedulePlan) -> bool {
    &&& plan.zone@ == resolved_offset(command.requested_zone(), local)
    &&& owned_text_of(plan.warning) == resolved_warning(command.requested_zone())
    &&& plan.window.start_at() == window_start(
        now,
        plan.zone@,
        resolved_day(command.requested_day(), now),
    )
    &&& plan.window.end_at() == window_end(plan.window.start_at(), command.interval_days())
    &&& plan.heading@ == schedule_heading(zone_label(command.requested_zone(), plan.zone@))
}

/// A request for the airing schedule: from which weekday on, for how many
/// days, and in which zone.
pub struct ScheduleCommand {
    day: Option<String>,
    interval: u32,
    timezone: Option<String>,
}

/// What the schedule command has settled before any airing is known.
pub struct SchedulePlan {
    /// The zone in which times are shown.
    pub zone: TimezoneOffset,
    /// A warning for the user, where the requested zone was not understood.
    pub warning: Option<String>,
    /// The range of time to ask airings for.
    pub window: TimeWindow,
    /// The heading of the schedule's first column.
    pub heading: String,
}

impl ScheduleCommand {
    /// The weekday that was asked for, if any.
    pub closed spec fn requested_day(self) -> Option<Seq<char>> {
        owned_text_of(self.day)
    }

    /// The number of days that the schedule covers.
    pub closed spec fn interval_days(self) -> int {
        self.interval as int
    }

    /// The zone that was asked for, if any.
    pub closed spec fn requested_zone(self) -> Option<Seq<char>> {
        owned_text_of(self.timezone)
    }

    /// A request for `interval` days of schedule from the weekday `day` on,
    /// shown in the zone `timezone`.
    pub fn new(day: Option<String>, interval: u32, timezone: Option<String>) -> (command: Self)
        ensures
            command.requested_day() == owned_text_of(day),
            command.interval_days() == interval,
            command.requested_zone() == owned_text_of(timezone),
    {
        ScheduleCommand { day, interval, timezone }
    }

    /// Resolves the requested zone against the local offset; the outcome
    /// carries the warning for a name that was not understood.
    pub fn resolve_timezone(&self, local: TimezoneOffset) -> (r: Resolution)
        ensures
            r.offset@ == resolved_offset(self.requested_zone(), local@),
            r.warning_text() == resolved_warning(self.requested_zone()),
            is_valid_offset(r.offset@),
    {
        TimezoneResolver::resolve(borrowed(&self.timezone), local)
    }

    /// The zone in which the schedule is shown: the requested one where it is
    /// understood, else the local one.
    pub fn get_timezone(&self, local: TimezoneOffset) -> (zone: TimezoneOffset)
        ensures
            zone@ == resolved_offset(self.requested_zone(), local@),
            is_valid_offset(zone@),
    {
        self.resolve_timezone(local).offset
    }

    /// The weekday from which the schedule is shown: the requested one where
    /// it is understood, else the weekday that UTC has at `now`.
    pub fn get_target_day(&self, now: Instant) -> (day: u32)
        ensures
            day == resolved_day(self.requested_day(), now@),
            day <= 6,
    {
        DayResolver::resolve(borrowed(&self.day), now)
    }

    /// The window to ask airings for, for a request made at `now`.
    pub fn window(&self, now: Instant, local: TimezoneOffset) -> (w: TimeWindow)
        ensures
            w.start_at() == window_start(
                now@,
                resolved_offset(self.requested_zone(), local@),
                resolved_day(self.requested_day(), now@),
            ),
            w.end_at() == window_end(w.start_at(), self.interval_days()),
    {
        let zone = self.get_timezone(local);
        let target_day = self.get_target_day(now);
        WindowCalculator::compute(zone, target_day, self.interval, now)
    }

    /// The first second of the window and the first second after it.
    pub fn get_time_range(&self, now: Instant, local: TimezoneOffset) -> (range: (i64, i64))
        ensures
            range.0 == window_start(
                now@,
                resolved_offset(self.requested_zone(), local@),
                resolved_day(self.requested_day(), now@),
            ),
            range.1 == window_end(range.0 as int, self.interval_days()),
            range.1 - range.0 == self.interval_days() * SECONDS_PER_DAY,
    {
        let w = self.window(now, local);
        (w.start(), w.end())
    }

    /// How far `airing_at` lies from `now`, in words.
    pub fn format_relative_time(&self, airing_at: i64, now: i64) -> (s: String)
        ensures
            s@ == relative_text(airing_at - now),
    {
        RelativeTimeFormatter::format(airing_at, now)
    }

    /// The name under which the zone of the schedule is shown, where `zone`
    /// is the offset in use.
    pub fn timezone_label(&self, zone: TimezoneOffset) -> (s: String)
        ensures
            s@ == zone_label(self.requested_zone(), zone@),
    {
        match &self.timezone {
            Some(name) => to_uppercase(name.as_str()),
            None => offset_label_text(zone),
        }
    }

    /// Settles, for a request made at `now` on a machine whose zone is
    /// `local`, all that is known before the airings are: the zone, the
    /// warning that goes with it, the window to ask for and the heading.
    pub fn plan(&self, now: Instant, local: TimezoneOffset) -> (p: SchedulePlan)
        ensures
            plans(*self, now@, local@, p),
            is_valid_offset(p.zone@),
    {
        let resolution = self.resolve_timezone(local);
        let zone = resolution.offset;
        let target_day = self.get_target_day(now);
        let window = WindowCalculator::compute(zone, target_day, self.interval, now);
        let label = self.timezone_label(zone);
        let heading = heading_text(label.as_str());
        SchedulePlan { zone, warning: resolution.warning, window, heading }
    }
}

/// An offset written as a label, such as `UTC+05:00`.
pub fn offset_label_text(zone: TimezoneOffset) -> (s: String)
    ensures
        s@ == offset_label(zone@),
{
    let offset: i32 = zone.utc_minus_local();
    let distance: i32 = if offset < 0 {
        -offset
    } else {
        offset
    };
    let hours: u8 = (distance / 3600) as u8;
    let minutes: u8 = ((distance % 3600) / 60) as u8;
    let mut s = String::from_str("UTC");
    if offset >= 0 {
        s.append("+");
    } else {
        s.append("-");
    }
    push_two_digits(&mut s, hours);
    s.append(":");
    push_two_digits(&mut s, minutes);
    assert(s@ =~= offset_label(zone@));
    s
}

/// The heading of the schedule's first column, for a zone shown as `label`.
pub fn heading_text(label: &str) -> (s: String)
    ensures
        s@ == schedule_heading(label@),
{
    let mut s = String::from_str("Schedule (");
    s.append(label);
    s.append(")");
    assert(s@ =~= schedule_heading(label@));
    s
}

impl SchedulePlan {
    /// The rows of the schedule for the airings that were reported, as seen
    /// at `now` in the zone of the plan: one row for each airing, in the order
    /// of the report. There are rows for all of them or for none: the answer
    /// is `None` where the calendar does not reach one of the airing times.
    pub fn rows(&self, airings: &Vec<RawAiring>, now: i64) -> (r: Option<Vec<ScheduleRow>>)
        ensures
            r is Some <==> all_on_calendar(airings@),
            r matches Some(rows) ==> rows_show(rows@, airings@, now as int, self.zone@),
    {
        schedule_rows(airings, now, self.zone)
    }
}

/// What a command settles is a function of the command, the time of the
/// request and the local offset: two plans for the same three agree in zone,
/// warning, window and heading.
pub proof fn plan_is_determined(
    command: ScheduleCommand,
    now: int,
    local: int,
    first: SchedulePlan,
    second: SchedulePlan,
)
    requires
        plans(command, now, local, first),
        plans(command, now, local, second),
    ensures
        first.zone@ == second.zone@,
        owned_text_of(first.warning) == owned_text_of(second.warning),
        first.window.start_at() == second.window.start_at(),
        first.window.end_at() == second.window.end_at(),
        first.heading@ == second.heading@,
{
}

/// The window of a plan is exactly as many whole days wide as the command
/// asks for.
pub proof fn plan_window_is_whole_days(
    command: ScheduleCommand,
    now: int,
    local: int,
    plan: SchedulePlan,
)
    requires
        plans(command, now, local, plan),
    ensures
        plan.window.end_at() - plan.window.start_at() == command.interval_days() * 86400,
        plan.window.end_at() >= plan.window.start_at(),
{
}

} // verus!
