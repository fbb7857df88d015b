//! Airing-schedule planning: resolving a timezone and a weekday, computing the
//! query window, and rendering airing times relative to the present.

pub mod text;
pub mod relative;
pub mod timezone;
pub mod calendar;
pub mod day;
pub mod window;
pub mod event;
pub mod commands;
pub mod cli;
