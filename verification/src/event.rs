//! Airings as a schedule service reports them, and the rows that show them.

use vstd::prelude::*;
use vstd::string::*;
use crate::calendar::{format_datetime, is_instant, local_display};
use crate::relative::{relative_text, RelativeTimeFormatter};
use crate::text::{decimal, decimal_string, owned_text_of};
use crate::timezone::TimezoneOffset;

verus! {

/// One airing as reported, each field as far as the report held it.
pub struct RawAiring {
    /// The title in English.
    pub english: Option<String>,
    /// The title in romanised Japanese.
    pub romaji: Option<String>,
    /// The number of the episode.
    pub episode: Option<i64>,
    /// When the episode airs, in seconds since the epoch.
    pub airing_at: Option<i64>,
}

/// One scheduled episode: its title, its number and when it airs, in seconds
/// since the epoch.
pub struct AiringEvent {
    pub title: String,
    pub episode: u64,
    pub airing_at: i64,
}

/// The title of an airing: the English one where there is one, else the
/// romanised one, else a placeholder.
pub open spec fn event_title(english: Option<Seq<char>>, romaji: Option<Seq<char>>) -> Seq<char> {
    match english {
        Some(title) => title,
        None => match romaji {
            Some(title) => title,
            None => "Unknown Title"@,
        },
    }
}

/// The episode number of an airing: the reported one where there is one and
/// it is not negative, else 0.
pub open spec fn event_episode(episode: Option<i64>) -> int {
    match episode {
        Some(number) => if number >= 0 {
            number as int
        } else {
            0
        },
        None => 0,
    }
}

/// The airing time of an airing: the reported one, else the epoch.
pub open spec fn event_airing_at(airing_at: Option<i64>) -> int {
    match airing_at {
        Some(secs) => secs as int,
        None => 0,
    }
}

impl AiringEvent {
    /// Whether this event is what the report `raw` stands for, each missing
    /// field replaced by its default.
    pub open spec fn reads(self, raw: RawAiring) -> bool {
        &&& self.title@ == event_title(owned_text_of(raw.english), owned_text_of(raw.romaji))
        &&& self.episode == event_episode(raw.episode)
        &&& self.airing_at == event_airing_at(raw.airing_at)
    }

    /// The event that a report stands for. A report is never refused: a
    /// missing field gets its default.
    pub fn from_raw(raw: &RawAiring) -> (event: Self)
        ensures
            event.reads(*raw),
    {
        let title = match &raw.english {
            Some(title) => title.clone(),
            None => match &raw.romaji {
                Some(title) => title.clone(),
                None => String::from_str("Unknown Title"),
            },
        };
        let episode: u64 = match raw.episode {
            Some(number) => if number >= 0 {
                number as u64
            } else {
                0
            },
            None => 0,
        };
        let airing_at: i64 = match raw.airing_at {
            Some(secs) => secs,
            None => 0,
        };
        AiringEvent { title, episode, airing_at }
    }
}

/// One row of the schedule, ready to be shown.
pub struct ScheduleRow {
    /// The title of the show.
    pub title: String,
    /// The number of the episode, in decimal.
    pub episode: String,
    /// When the episode airs, written out in the zone of the schedule.
    pub time: String,
    /// How far the airing lies from the present.
    pub status: String,
    /// Whether the airing lies before the present.
    pub is_past: bool,
}

impl ScheduleRow {
    /// Whether this row shows an episode with the given title and number that
    /// airs at `airing_at`, as seen at `now` by a clock that needs
    /// `utc_minus_local` seconds added to show UTC.
    pub open spec fn shows(
        self,
        title: Seq<char>,
        episode: int,
        airing_at: int,
        now: int,
        utc_minus_local: int,
    ) -> bool {
        &&& self.title@ == title
        &&& self.episode@ == decimal(episode as nat)
        &&& self.time@ == local_display(airing_at, utc_minus_local)
        &&& self.status@ == relative_text(airing_at - now)
        &&& self.is_past == (airing_at < now)
    }

    /// Whether this row shows what the report `raw` stands for.
    pub open spec fn shows_report(self, raw: RawAiring, now: int, utc_minus_local: int) -> bool {
        self.shows(
            event_title(owned_text_of(raw.english), owned_text_of(raw.romaji)),
            event_episode(raw.episode),
            event_airing_at(raw.airing_at),
            now,
            utc_minus_local,
        )
    }

    /// The row that shows `event` as seen at `now` in `zone`; `None` where the
    /// calendar does not reach the airing time.
    pub fn of_event(event: &AiringEvent, now: i64, zone: TimezoneOffset) -> (r: Option<Self>)
        ensures
            r is Some <==> is_instant(event.airing_at as int),
            r matches Some(row) ==> row.shows(
                event.title@,
                event.episode as int,
                event.airing_at as int,
                now as int,
                zone@,
            ),
    {
        match format_datetime(event.airing_at, zone) {
            Some(time) => Some(
                ScheduleRow {
                    title: event.title.clone(),
                    episode: decimal_string(event.episode),
                    time,
                    status: RelativeTimeFormatter::format(event.airing_at, now),
                    is_past: RelativeTimeFormatter::is_past(event.airing_at, now),
                },
            ),
            None => None,
        }
    }
}

/// Whether the calendar reaches the airing time of every one of the reports.
pub open spec fn all_on_calendar(airings: Seq<RawAiring>) -> bool {
    forall|i: int|
        0 <= i < airings.len() ==> is_instant(event_airing_at((#[trigger] airings[i]).airing_at))
}

/// Whether `rows` are the rows of `airings`, one for each and in their order,
/// as seen at `now` by a clock that needs `utc_minus_local` seconds added to
/// show UTC.
pub open spec fn rows_show(
    rows: Seq<ScheduleRow>,
    airings: Seq<RawAiring>,
    now: int,
    utc_minus_local: int,
) -> bool {
    &&& rows.len() == airings.len()
    &&& forall|i: int|
        0 <= i < rows.len() ==> (#[trigger] rows[i]).shows_report(airings[i], now, utc_minus_local)
}

/// The rows of a schedule: one for each reported airing, in the order of the
/// report, as seen at `now` in `zone`. There are rows for all the airings or
/// for none: the answer is `None` where the calendar does not reach the
/// airing time of one of them.
pub fn schedule_rows(airings: &Vec<RawAiring>, now: i64, zone: TimezoneOffset) -> (r: Option<
    Vec<ScheduleRow>,
>)
    ensures
        r is Some <==> all_on_calendar(airings@),
        r matches Some(rows) ==> rows_show(rows@, airings@, now as int, zone@),
{
    let mut rows: Vec<ScheduleRow> = Vec::new();
    let mut i: usize = 0;
    while i < airings.len()
        invariant
            i <= airings.len(),
            rows.len() == i,
            forall|j: int|
                0 <= j < i ==> is_instant(event_airing_at((#[trigger] airings@[j]).airing_at)),
            forall|j: int|
                0 <= j < i ==> (#[trigger] rows@[j]).shows_report(airings@[j], now as int, zone@),
        decreases airings.len() - i,
    {
        let event = AiringEvent::from_raw(&airings[i]);
        match ScheduleRow::of_event(&event, now, zone) {
            Some(row) => {
                rows.push(row);
            },
            None => {
                assert(!is_instant(event_airing_at(airings@[i as int].airing_at)));
                return None;
            },
        }
        i += 1;
    }
    Some(rows)
}

} // verus!
