use animesh::calendar::Instant;
use animesh::commands::schedule::{heading_text, offset_label_text, ScheduleCommand};
use animesh::timezone::TimezoneOffset;

fn local_offset() -> TimezoneOffset {
    let secs: i32 = chrono::Local::now().offset().utc_minus_local();
    TimezoneOffset::from_utc_minus_local(secs).unwrap()
}

fn present() -> Instant {
    Instant::from_timestamp(chrono::Utc::now().timestamp()).unwrap()
}

fn offset(utc_minus_local: i32) -> TimezoneOffset {
    TimezoneOffset::from_utc_minus_local(utc_minus_local).unwrap()
}

fn at(secs: i64) -> Instant {
    Instant::from_timestamp(secs).unwrap()
}

#[test]
fn test_get_timezone() {
    let command = ScheduleCommand::new(None, 2, None);
    let tz = command.get_timezone(local_offset());
    assert!(tz.utc_minus_local() >= -14 * 3600 && tz.utc_minus_local() <= 14 * 3600);

    let command = ScheduleCommand::new(None, 2, Some("UTC".to_string()));
    let tz = command.get_timezone(local_offset());
    assert_eq!(tz.utc_minus_local(), 0);

    let command = ScheduleCommand::new(None, 2, Some("IST".to_string()));
    let tz = command.get_timezone(local_offset());
    assert_eq!(tz.utc_minus_local(), -(5 * 3600 + 30 * 60));
}

#[test]
fn test_get_target_day() {
    let command = ScheduleCommand::new(None, 2, None);
    let day = command.get_target_day(present());
    assert!(day < 7);

    let command = ScheduleCommand::new(Some("monday".to_string()), 2, None);
    assert_eq!(command.get_target_day(present()), 0);
}

#[test]
fn test_get_time_range() {
    let command = ScheduleCommand::new(None, 2, None);
    let (start, end) = command.get_time_range(present(), local_offset());
    assert!(end - start == 2 * 24 * 3600);
}

#[test]
fn test_format_relative_time() {
    let command = ScheduleCommand::new(None, 2, None);
    let now = chrono::Utc::now().timestamp();

    // Test past times
    assert!(command.format_relative_time(now - 3600, now).contains("1h ago"));
    assert!(command.format_relative_time(now - 86400, now).contains("1d ago"));

    // Test future times
    assert!(command.format_relative_time(now + 3600, now).contains("in 1h"));
    assert!(command.format_relative_time(now + 86400, now).contains("in 1d"));
}

#[test]
fn get_timezone_without_request_is_local() {
    let command = ScheduleCommand::new(None, 1, None);
    assert_eq!(command.get_timezone(offset(-19800)).utc_minus_local(), -19800);
    assert_eq!(command.get_timezone(offset(28800)).utc_minus_local(), 28800);
}

#[test]
fn get_timezone_unknown_name_is_local_with_warning() {
    let command = ScheduleCommand::new(None, 1, Some("Narnia".to_string()));
    assert_eq!(command.get_timezone(offset(3600)).utc_minus_local(), 3600);
    let resolution = command.resolve_timezone(offset(3600));
    assert_eq!(resolution.offset.utc_minus_local(), 3600);
    assert_eq!(
        resolution.warning,
        Some("Invalid timezone: Narnia. Using default timezone.".to_string())
    );
}

#[test]
fn get_timezone_known_name_has_no_warning() {
    let command = ScheduleCommand::new(None, 1, Some("jst".to_string()));
    let resolution = command.resolve_timezone(offset(3600));
    assert_eq!(resolution.offset.utc_minus_local(), -32400);
    assert_eq!(resolution.warning, None);
}

#[test]
fn get_target_day_unknown_name_is_today_in_utc() {
    // 2024-01-01 was a Monday, 1970-01-01 a Thursday.
    let command = ScheduleCommand::new(Some("someday".to_string()), 1, None);
    assert_eq!(command.get_target_day(at(1_704_067_200)), 0);
    assert_eq!(command.get_target_day(at(0)), 3);
    let command = ScheduleCommand::new(None, 1, None);
    assert_eq!(command.get_target_day(at(1_704_067_200 + 6 * 86_400)), 6);
}

#[test]
fn get_target_day_named() {
    let command = ScheduleCommand::new(Some("Fri".to_string()), 1, None);
    assert_eq!(command.get_target_day(at(0)), 4);
    let command = ScheduleCommand::new(Some("SUNDAY".to_string()), 1, None);
    assert_eq!(command.get_target_day(at(0)), 6);
}

#[test]
fn get_time_range_moves_to_target_day() {
    // Monday 2024-01-01 12:00 UTC, asked for Wednesday, three days.
    let now: i64 = 1_704_110_400;
    let command = ScheduleCommand::new(Some("wednesday".to_string()), 3, Some("UTC".to_string()));
    let (start, end) = command.get_time_range(at(now), offset(0));
    assert_eq!(start, now + 2 * 86_400);
    assert_eq!(end, now + 5 * 86_400);
}

#[test]
fn get_time_range_does_not_roll_to_next_week() {
    // Wednesday 2024-01-03 12:00 UTC, asked for Monday: the window starts now.
    let now: i64 = 1_704_110_400 + 2 * 86_400;
    let command = ScheduleCommand::new(Some("monday".to_string()), 1, Some("UTC".to_string()));
    let (start, end) = command.get_time_range(at(now), offset(0));
    assert_eq!(start, now);
    assert_eq!(end, now + 86_400);
    // Asked for Wednesday on Wednesday: the window starts now as well.
    let command = ScheduleCommand::new(Some("wed".to_string()), 1, Some("UTC".to_string()));
    let (start, _end) = command.get_time_range(at(now), offset(0));
    assert_eq!(start, now);
}

#[test]
fn get_time_range_uses_local_weekday() {
    // Sunday 2023-12-31 20:00 UTC is already Monday in Tokyo.
    let now: i64 = 1_704_067_200 - 4 * 3600;
    let tuesday = ScheduleCommand::new(Some("tuesday".to_string()), 1, Some("JST".to_string()));
    let (start, _end) = tuesday.get_time_range(at(now), offset(0));
    assert_eq!(start, now + 86_400);
    let tuesday = ScheduleCommand::new(Some("tuesday".to_string()), 1, Some("UTC".to_string()));
    let (start, _end) = tuesday.get_time_range(at(now), offset(0));
    assert_eq!(start, now);
}

#[test]
fn window_matches_time_range() {
    let now: i64 = 1_704_110_400;
    let command = ScheduleCommand::new(Some("thu".to_string()), 2, None);
    let window = command.window(at(now), offset(0));
    assert_eq!((window.start(), window.end()), command.get_time_range(at(now), offset(0)));
    assert_eq!(window.start(), now + 3 * 86_400);
    assert_eq!(window.end() - window.start(), 2 * 86_400);
}

#[test]
fn timezone_label_of_requested_name_is_upper_case() {
    let command = ScheduleCommand::new(None, 1, Some("jst".to_string()));
    assert_eq!(command.timezone_label(offset(-32400)), "JST");
    let command = ScheduleCommand::new(None, 1, Some("Narnia".to_string()));
    assert_eq!(command.timezone_label(offset(0)), "NARNIA");
    let command = ScheduleCommand::new(None, 1, Some("straße".to_string()));
    assert_eq!(command.timezone_label(offset(0)), "STRASSE");
}

#[test]
fn timezone_label_of_offset() {
    let command = ScheduleCommand::new(None, 1, None);
    assert_eq!(command.timezone_label(offset(0)), "UTC+00:00");
    assert_eq!(command.timezone_label(offset(-19800)), "UTC-05:30");
    assert_eq!(command.timezone_label(offset(28800)), "UTC+08:00");
    assert_eq!(command.timezone_label(offset(50400)), "UTC+14:00");
    assert_eq!(command.timezone_label(offset(-50400)), "UTC-14:00");
    assert_eq!(command.timezone_label(offset(-20700)), "UTC-05:45");
    assert_eq!(command.timezone_label(offset(59)), "UTC+00:00");
    assert_eq!(command.timezone_label(offset(-60)), "UTC-00:01");
}

#[test]
fn plan_with_known_zone() {
    let now: i64 = 1_704_110_400;
    let command = ScheduleCommand::new(Some("tue".to_string()), 2, Some("ist".to_string()));
    let plan = command.plan(at(now), offset(0));
    assert_eq!(plan.zone.utc_minus_local(), -19800);
    assert_eq!(plan.warning, None);
    assert_eq!(plan.window.start(), now + 86_400);
    assert_eq!(plan.window.end(), now + 3 * 86_400);
    assert_eq!(plan.heading, "Schedule (IST)");
}

#[test]
fn plan_with_unknown_zone() {
    let now: i64 = 1_704_110_400;
    let command = ScheduleCommand::new(None, 1, Some("moon".to_string()));
    let plan = command.plan(at(now), offset(25200));
    assert_eq!(plan.zone.utc_minus_local(), 25200);
    assert_eq!(
        plan.warning,
        Some("Invalid timezone: moon. Using default timezone.".to_string())
    );
    assert_eq!(plan.window.start(), now);
    assert_eq!(plan.window.end(), now + 86_400);
    assert_eq!(plan.heading, "Schedule (MOON)");
}

#[test]
fn plan_without_zone() {
    let now: i64 = 1_704_110_400;
    let command = ScheduleCommand::new(None, 0, None);
    let plan = command.plan(at(now), offset(-3600));
    assert_eq!(plan.zone.utc_minus_local(), -3600);
    assert_eq!(plan.warning, None);
    assert_eq!(plan.window.start(), now);
    assert_eq!(plan.window.end(), now);
    assert_eq!(plan.heading, "Schedule (UTC-01:00)");
}

#[test]
fn plan_is_repeatable() {
    let now: i64 = 1_704_110_400;
    let command = ScheduleCommand::new(Some("sat".to_string()), 4, Some("pst".to_string()));
    let first = command.plan(at(now), offset(0));
    let second = command.plan(at(now), offset(0));
    assert_eq!(first.zone.utc_minus_local(), second.zone.utc_minus_local());
    assert_eq!(first.warning, second.warning);
    assert_eq!(first.window.start(), second.window.start());
    assert_eq!(first.window.end(), second.window.end());
    assert_eq!(first.heading, second.heading);
}

#[test]
fn offset_labels() {
    assert_eq!(offset_label_text(offset(0)), "UTC+00:00");
    assert_eq!(offset_label_text(offset(1)), "UTC+00:00");
    assert_eq!(offset_label_text(offset(-1)), "UTC-00:00");
    assert_eq!(offset_label_text(offset(3599)), "UTC+00:59");
    assert_eq!(offset_label_text(offset(3600)), "UTC+01:00");
    assert_eq!(offset_label_text(offset(-34200)), "UTC-09:30");
    assert_eq!(offset_label_text(offset(36000)), "UTC+10:00");
    assert_eq!(offset_label_text(offset(-46800)), "UTC-13:00");
}

#[test]
fn headings() {
    assert_eq!(heading_text("JST"), "Schedule (JST)");
    assert_eq!(heading_text(""), "Schedule ()");
    assert_eq!(heading_text("UTC+05:30"), "Schedule (UTC+05:30)");
}
