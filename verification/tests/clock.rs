use gamesheet_schedule::calendar::{game_end, stamp};
use gamesheet_schedule::clock::{read_start, Instant, WallClock};
use gamesheet_schedule::schedule::last_updated;

#[test]
fn summer_start_is_four_hours_behind_utc() {
    let start = read_start("2022-05-27T20:30:00Z").unwrap();
    assert_eq!(start.instant, Instant { seconds: 1653697800, nanos: 0 });
    assert_eq!(start.pretty, "Friday May 27 08:30 PM");
}

#[test]
fn winter_start_is_five_hours_behind_utc() {
    let start = read_start("2022-01-15T19:00:00Z").unwrap();
    assert_eq!(start.instant, Instant { seconds: 1642291200, nanos: 0 });
    assert_eq!(start.pretty, "Saturday January 15 07:00 PM");
}

#[test]
fn start_in_the_hour_that_clocks_skip_is_none() {
    assert!(read_start("2022-03-13T02:30:00Z").is_none());
}

#[test]
fn start_in_the_hour_that_clocks_repeat_is_none() {
    assert!(read_start("2022-11-06T01:30:00Z").is_none());
}

#[test]
fn start_that_is_no_time_is_none() {
    assert!(read_start("").is_none());
    assert!(read_start("2022-05-27").is_none());
    assert!(read_start("2022-05-27T20:30:00").is_none());
    assert!(read_start("2022-05-27T25:30:00Z").is_none());
    assert!(read_start("2022-02-30T20:30:00Z").is_none());
    assert!(read_start("2022-05-27T20:30:00Z and more").is_none());
}

#[test]
fn stamp_is_date_and_time_in_utc() {
    assert_eq!(
        stamp(Instant { seconds: 1653697800, nanos: 0 }),
        Some("20220528T003000Z".to_string())
    );
    assert_eq!(stamp(Instant { seconds: 0, nanos: 0 }), Some("19700101T000000Z".to_string()));
}

#[test]
fn stamp_of_an_instant_beyond_the_calendar_is_none() {
    assert_eq!(stamp(Instant { seconds: i64::MAX, nanos: 0 }), None);
    assert_eq!(stamp(Instant { seconds: 0, nanos: 2_000_000_000 }), None);
}

#[test]
fn game_ends_ninety_minutes_after_it_starts() {
    assert_eq!(
        game_end(Instant { seconds: 1653697800, nanos: 0 }),
        Some(Instant { seconds: 1653697800 + 5400, nanos: 0 })
    );
    assert_eq!(
        game_end(Instant { seconds: -30, nanos: 250 }),
        Some(Instant { seconds: 5370, nanos: 250 })
    );
}

#[test]
fn game_that_starts_in_a_leap_second_ends_outside_it() {
    assert_eq!(
        game_end(Instant { seconds: 59, nanos: 1_500_000_000 }),
        Some(Instant { seconds: 5459, nanos: 500_000_000 })
    );
}

#[test]
fn game_at_the_end_of_the_calendar_has_no_end() {
    assert_eq!(game_end(Instant { seconds: i64::MAX, nanos: 0 }), None);
    let last = chrono::DateTime::<chrono::Utc>::MAX_UTC.timestamp();
    assert_eq!(game_end(Instant { seconds: last, nanos: 0 }), None);
    assert!(game_end(Instant { seconds: last - 5400, nanos: 0 }).is_some());
}

#[test]
fn last_updated_tells_day_and_time() {
    let now = WallClock { seconds: 1653683405, nanos: 0 };
    assert_eq!(last_updated(now), Some("Friday May 27 08:30:05 PM".to_string()));
}

#[test]
fn last_updated_of_a_clock_beyond_the_calendar_is_none() {
    assert_eq!(last_updated(WallClock { seconds: i64::MIN, nanos: 0 }), None);
}

#[test]
fn instants_are_ordered_by_seconds_then_nanos() {
    let early = Instant { seconds: 10, nanos: 900 };
    let late = Instant { seconds: 11, nanos: 0 };
    let later = Instant { seconds: 11, nanos: 1 };
    assert!(early.is_not_after(&late));
    assert!(!late.is_not_after(&early));
    assert!(late.is_not_after(&later));
    assert!(!later.is_not_after(&late));
    assert!(late.is_not_after(&late));
    assert_eq!(late.utc_clock(), WallClock { seconds: 11, nanos: 0 });
}

#[test]
fn start_agrees_with_chrono() {
    let naive =
        chrono::NaiveDateTime::parse_from_str("2022-05-27T20:30:00Z", "%Y-%m-%dT%H:%M:%SZ").unwrap();
    let eastern =
        chrono::TimeZone::from_local_datetime(&chrono_tz::America::New_York, &naive).single().unwrap();
    let start = read_start("2022-05-27T20:30:00Z").unwrap();
    assert_eq!(start.instant.seconds, eastern.with_timezone(&chrono::Utc).timestamp());
    assert_eq!(start.pretty, eastern.format("%A %B %d %I:%M %p").to_string());
}
