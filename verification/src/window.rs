//! The range of time for which airings are asked.

use vstd::prelude::*;
use crate::calendar::{weekday_in, weekday_index, Instant};
use crate::timezone::TimezoneOffset;

verus! {

/// Seconds in a day.
pub const SECONDS_PER_DAY: i64 = 86400;

/// The days from the weekday `current` until the weekday `target` later in
/// the same week; none where `target` is `current` or lies before it.
pub open spec fn days_ahead(current: int, target: int) -> int {
    if target > current {
        target - current
    } else {
        0
    }
}

/// Where the window starts for a request made at `now` in a zone: at `now`,
/// moved on by a whole day for each day from the zone's weekday at `now` until
/// the target weekday.
pub open spec fn window_start(now: int, utc_minus_local: int, target_day: int) -> int {
    now + days_ahead(weekday_index(now, utc_minus_local), target_day) * SECONDS_PER_DAY
}

/// Where a window of `interval_days` whole days ends that starts at `start`.
pub open spec fn window_end(start: int, interval_days: int) -> int {
    start + interval_days * SECONDS_PER_DAY
}

/// A half-open range of time `[start, end)`, in seconds since the epoch, that
/// does not end before it starts.
#[derive(Clone, Copy, Debug)]
pub struct TimeWindow {
    start: i64,
    end: i64,
}

impl TimeWindow {
    #[verifier::type_invariant]
    spec fn ordered(self) -> bool {
        self.start <= self.end
    }

    /// The first second of the window.
    pub closed spec fn start_at(self) -> int {
        self.start as int
    }

    /// The first second after the window.
    pub closed spec fn end_at(self) -> int {
        self.end as int
    }

    /// The window from `start` until `end`; `None` where `end` lies before
    /// `start`.
    pub fn new(start: i64, end: i64) -> (r: Option<Self>)
        ensures
            r is Some <==> start <= end,
            r matches Some(w) ==> w.start_at() == start && w.end_at() == end,
    {
        if start <= end {
            Some(TimeWindow { start, end })
        } else {
            None
        }
    }

    /// The first second of the window.
    pub fn start(&self) -> (r: i64)
        ensures
            r == self.start_at(),
            r <= self.end_at(),
    {
        proof {
            use_type_invariant(self);
        }
        self.start
    }

    /// The first second after the window.
    pub fn end(&self) -> (r: i64)
        ensures
            r == self.end_at(),
            self.start_at() <= r,
    {
        proof {
            use_type_invariant(self);
        }
        self.end
    }
}

/// Computes the window of a request.
pub struct WindowCalculator;

impl WindowCalculator {
    /// The window for a request made at `now` in the zone `offset`, for
    /// `interval_days` days from the weekday `target_day` on. A target that
    /// is today's weekday in the zone, or an earlier one, gives a window that
    /// starts at `now`: the window never moves to the following week. The
    /// window is `interval_days` whole days wide, and empty for no days.
    pub fn compute(offset: TimezoneOffset, target_day: u32, interval_days: u32, now: Instant) -> (w:
        TimeWindow)
        requires
            target_day <= 6,
        ensures
            w.start_at() == window_start(now@, offset@, target_day as int),
            w.end_at() == window_end(w.start_at(), interval_days as int),
            w.end_at() - w.start_at() == interval_days * SECONDS_PER_DAY,
    {
        let current_day = weekday_in(now, offset);
        let days_diff: u32 = if target_day > current_day {
            target_day - current_day
        } else {
            0
        };
        let start: i64 = now.timestamp() + (days_diff as i64) * SECONDS_PER_DAY;
        let end: i64 = start + (interval_days as i64) * SECONDS_PER_DAY;
        TimeWindow { start, end }
    }
}

/// The window starts at the request or up to six whole days after it, and on
/// the target weekday whenever that weekday is still to come in the week.
pub proof fn window_starts_within_the_week(now: int, utc_minus_local: int, target_day: int)
    requires
        0 <= target_day <= 6,
    ensures
        now <= window_start(now, utc_minus_local, target_day) <= now + 6 * SECONDS_PER_DAY,
        (window_start(now, utc_minus_local, target_day) - now) % (SECONDS_PER_DAY as int) == 0,
        target_day >= weekday_index(now, utc_minus_local) ==> weekday_index(
            window_start(now, utc_minus_local, target_day),
            utc_minus_local,
        ) == target_day,
        target_day <= weekday_index(now, utc_minus_local) ==> window_start(
            now,
            utc_minus_local,
            target_day,
        ) == now,
{
}

/// A window is exactly as many whole days wide as were asked for, whatever
/// the time of the request, the zone and the target weekday; it is empty for
/// no days and never ends before it starts.
pub proof fn window_is_whole_days(
    now: int,
    utc_minus_local: int,
    target_day: int,
    interval_days: int,
)
    requires
        interval_days >= 0,
    ensures
        window_end(window_start(now, utc_minus_local, target_day), interval_days) - window_start(
            now,
            utc_minus_local,
            target_day,
        ) == interval_days * 86400,
        window_end(window_start(now, utc_minus_local, target_day), interval_days) >= window_start(
            now,
            utc_minus_local,
            target_day,
        ),
        interval_days == 0 ==> window_end(
            window_start(now, utc_minus_local, target_day),
            interval_days,
        ) == window_start(now, utc_minus_local, target_day),
{
}

/// The window is a function of the zone, the target weekday, the number of
/// days and the instant of the request: two windows for the same four agree
/// in both ends.
pub proof fn window_is_determined(
    now: int,
    utc_minus_local: int,
    target_day: int,
    interval_days: int,
    first: TimeWindow,
    second: TimeWindow,
)
    requires
        first.start_at() == window_start(now, utc_minus_local, target_day),
        first.end_at() == window_end(first.start_at(), interval_days),
        second.start_at() == window_start(now, utc_minus_local, target_day),
        second.end_at() == window_end(second.start_at(), interval_days),
    ensures
        first.start_at() == second.start_at(),
        first.end_at() == second.end_at(),
{
}

} // verus!
