//! The commands of the tool.

pub mod schedule;

pub use schedule::{ScheduleCommand, SchedulePlan};
