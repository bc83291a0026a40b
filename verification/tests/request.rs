use gamesheet_schedule::clock::WallClock;
use gamesheet_schedule::request::{
    decimal_text, schedule_path, schedule_query, schedule_request, BASE_URL,
};

#[test]
fn digits_are_written_one_by_one() {
    let written: Vec<String> = (0..10).map(decimal_text).collect();
    assert_eq!(written, vec!["0", "1", "2", "3", "4", "5", "6", "7", "8", "9"]);
}

#[test]
fn numbers_are_written_in_decimal() {
    assert_eq!(decimal_text(0), "0");
    assert_eq!(decimal_text(7), "7");
    assert_eq!(decimal_text(10), "10");
    assert_eq!(decimal_text(1905), "1905");
    assert_eq!(decimal_text(100200), "100200");
    assert_eq!(decimal_text(u32::MAX), "4294967295");
}

#[test]
fn decimal_agrees_with_the_standard_library() {
    for number in [1u32, 9, 11, 99, 100, 101, 999, 1000, 65535, 65536, 123456789] {
        assert_eq!(decimal_text(number), number.to_string());
    }
}

#[test]
fn path_names_the_season() {
    assert_eq!(schedule_path(1337), "api/stats/v1/seasons/1337/schedule");
    assert_eq!(schedule_path(0), "api/stats/v1/seasons/0/schedule");
}

#[test]
fn query_asks_for_the_first_fifty_games_since() {
    assert_eq!(
        schedule_query("2022-05-27T00:00:00Z"),
        "offset=0&limit=50&filter[start_time_from]=2022-05-27T00:00:00Z"
    );
}

#[test]
fn request_starts_at_the_beginning_of_today() {
    let evening = WallClock { seconds: 1653683405, nanos: 0 };
    let request = schedule_request(42, evening).unwrap();
    assert_eq!(request.path, "api/stats/v1/seasons/42/schedule");
    assert_eq!(request.query, "offset=0&limit=50&filter[start_time_from]=2022-05-27T00:00:00Z");
}

#[test]
fn request_on_a_day_beyond_the_calendar_is_none() {
    assert!(schedule_request(42, WallClock { seconds: i64::MAX, nanos: 0 }).is_none());
}

#[test]
fn service_is_asked_over_https() {
    assert_eq!(BASE_URL, "https://gamesheet.app");
}
