use animesh::calendar::MAX_INSTANT;
use animesh::commands::schedule::ScheduleCommand;
use animesh::calendar::Instant;
use animesh::event::{schedule_rows, AiringEvent, RawAiring, ScheduleRow};
use animesh::timezone::TimezoneOffset;

fn offset(utc_minus_local: i32) -> TimezoneOffset {
    TimezoneOffset::from_utc_minus_local(utc_minus_local).unwrap()
}

fn report(english: Option<&str>, romaji: Option<&str>, episode: Option<i64>, airing_at: Option<i64>) -> RawAiring {
    RawAiring {
        english: english.map(|title| title.to_string()),
        romaji: romaji.map(|title| title.to_string()),
        episode,
        airing_at,
    }
}

#[test]
fn event_prefers_english_title() {
    let event = AiringEvent::from_raw(&report(Some("Frieren"), Some("Sousou no Frieren"), Some(12), Some(100)));
    assert_eq!(event.title, "Frieren");
    assert_eq!(event.episode, 12);
    assert_eq!(event.airing_at, 100);
}

#[test]
fn event_falls_back_to_romaji_title() {
    let event = AiringEvent::from_raw(&report(None, Some("Sousou no Frieren"), Some(1), Some(-100)));
    assert_eq!(event.title, "Sousou no Frieren");
    assert_eq!(event.airing_at, -100);
}

#[test]
fn event_without_title_gets_placeholder() {
    let event = AiringEvent::from_raw(&report(None, None, Some(3), Some(5)));
    assert_eq!(event.title, "Unknown Title");
}

#[test]
fn event_defaults() {
    let event = AiringEvent::from_raw(&report(None, None, None, None));
    assert_eq!(event.title, "Unknown Title");
    assert_eq!(event.episode, 0);
    assert_eq!(event.airing_at, 0);
    let event = AiringEvent::from_raw(&report(Some(""), Some("x"), Some(-4), Some(i64::MIN)));
    assert_eq!(event.title, "");
    assert_eq!(event.episode, 0);
    assert_eq!(event.airing_at, i64::MIN);
    let event = AiringEvent::from_raw(&report(None, None, Some(i64::MAX), Some(i64::MAX)));
    assert_eq!(event.episode, i64::MAX as u64);
}

#[test]
fn row_of_event() {
    let event = AiringEvent { title: "One Piece".to_string(), episode: 1090, airing_at: 1_704_067_200 };
    let row = ScheduleRow::of_event(&event, 1_704_067_200 + 7200, offset(-32400)).unwrap();
    assert_eq!(row.title, "One Piece");
    assert_eq!(row.episode, "1090");
    assert_eq!(row.time, "2024-01-01 09:00");
    assert_eq!(row.status, "2h ago");
    assert!(row.is_past);
    let row = ScheduleRow::of_event(&event, 1_704_067_200 - 3 * 86_400, offset(0)).unwrap();
    assert_eq!(row.time, "2024-01-01 00:00");
    assert_eq!(row.status, "in 3d");
    assert!(!row.is_past);
    let row = ScheduleRow::of_event(&event, 1_704_067_200, offset(0)).unwrap();
    assert_eq!(row.status, "now");
    assert!(!row.is_past);
}

#[test]
fn row_of_event_off_the_calendar() {
    let event = AiringEvent { title: "x".to_string(), episode: 0, airing_at: MAX_INSTANT + 1 };
    assert!(ScheduleRow::of_event(&event, 0, offset(0)).is_none());
    let event = AiringEvent { title: "x".to_string(), episode: u64::MAX, airing_at: MAX_INSTANT };
    let row = ScheduleRow::of_event(&event, 0, offset(0)).unwrap();
    assert_eq!(row.episode, "18446744073709551615");
    assert_eq!(row.status, "in 95026236d");
}

#[test]
fn rows_keep_the_order_of_the_report() {
    let now: i64 = 1_704_067_200;
    let airings = vec![
        report(Some("A"), None, Some(1), Some(now - 600)),
        report(None, Some("B"), None, Some(now + 90_000)),
        report(None, None, Some(7), None),
    ];
    let rows = schedule_rows(&airings, now, offset(-19800)).unwrap();
    assert_eq!(rows.len(), 3);
    assert_eq!(rows[0].title, "A");
    assert_eq!(rows[0].episode, "1");
    assert_eq!(rows[0].time, "2024-01-01 05:20");
    assert_eq!(rows[0].status, "10m ago");
    assert!(rows[0].is_past);
    assert_eq!(rows[1].title, "B");
    assert_eq!(rows[1].episode, "0");
    assert_eq!(rows[1].time, "2024-01-02 06:30");
    assert_eq!(rows[1].status, "in 1d");
    assert!(!rows[1].is_past);
    assert_eq!(rows[2].title, "Unknown Title");
    assert_eq!(rows[2].episode, "7");
    assert_eq!(rows[2].time, "1970-01-01 05:30");
    assert_eq!(rows[2].status, "19723d ago");
    assert!(rows[2].is_past);
}

#[test]
fn rows_of_nothing() {
    let airings: Vec<RawAiring> = Vec::new();
    let rows = schedule_rows(&airings, 0, offset(0)).unwrap();
    assert!(rows.is_empty());
}

#[test]
fn rows_are_all_or_none() {
    let airings = vec![
        report(Some("A"), None, Some(1), Some(10)),
        report(Some("B"), None, Some(2), Some(i64::MAX)),
        report(Some("C"), None, Some(3), Some(30)),
    ];
    assert!(schedule_rows(&airings, 0, offset(0)).is_none());
    let airings = vec![report(Some("A"), None, Some(1), Some(MAX_INSTANT))];
    assert!(schedule_rows(&airings, 0, offset(0)).is_some());
}

#[test]
fn plan_rows_use_the_zone_of_the_plan() {
    let now: i64 = 1_704_067_200;
    let command = ScheduleCommand::new(None, 1, Some("jst".to_string()));
    let plan = command.plan(Instant::from_timestamp(now).unwrap(), offset(0));
    let airings = vec![report(Some("A"), None, Some(1), Some(now + 3600))];
    let rows = plan.rows(&airings, now).unwrap();
    assert_eq!(rows.len(), 1);
    assert_eq!(rows[0].time, "2024-01-01 10:00");
    assert_eq!(rows[0].status, "in 1h");
    let airings = vec![report(Some("A"), None, Some(1), Some(i64::MIN))];
    assert!(plan.rows(&airings, now).is_none());
}
