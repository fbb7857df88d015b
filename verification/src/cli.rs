//! The command line as data: what was asked for, once the arguments are read.

use vstd::prelude::*;
use crate::commands::schedule::ScheduleCommand;
use crate::text::owned_text_of;

verus! {

/// The commands that the tool offers.
pub enum Commands {
    /// View the airing schedule.
    Schedule {
        /// The weekday to show the schedule from.
        day: Option<String>,
        /// The number of days to show the schedule for.
        interval: u32,
        /// The zone to show the schedule in.
        timezone: Option<String>,
    },
}

/// One invocation of the tool.
pub struct Cli {
    pub command: Commands,
}

impl Cli {
    /// The schedule command that this invocation asks for, with the weekday,
    /// the days and the zone as they were given.
    pub fn into_schedule(self) -> (command: ScheduleCommand)
        ensures
            self.command matches Commands::Schedule { day, interval, timezone }
                && command.requested_day() == owned_text_of(day) && command.interval_days()
                == interval && command.requested_zone() == owned_text_of(timezone),
    {
        match self.command {
            Commands::Schedule { day, interval, timezone } => ScheduleCommand::new(
                day,
                interval,
                timezone,
            ),
        }
    }
}

} // verus!
