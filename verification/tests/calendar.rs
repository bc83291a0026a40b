use gamesheet_schedule::calendar::{create_ics, description, event_for, summary, UnwritableGame};
use gamesheet_schedule::clock::Instant;
use gamesheet_schedule::join::Game;

fn played(id: &str, home: &str, visitor: &str, seconds: i64, pretty: &str, location: &str) -> Game {
    Game {
        id: id.to_string(),
        home: home.to_string(),
        visitor: visitor.to_string(),
        scheduled_at: Instant { seconds, nanos: 0 },
        scheduled_at_pretty: pretty.to_string(),
        location: location.to_string(),
    }
}

fn friday_game() -> Game {
    played("g1", "Hawks", "Owls", 1653697800, "Friday May 27 08:30 PM", "Rink A")
}

fn lines_of(text: &str) -> Vec<String> {
    text.split("\r\n").map(|line| line.to_string()).collect()
}

fn identifiers_of(text: &str) -> Vec<String> {
    lines_of(text)
        .into_iter()
        .filter(|line| line.starts_with("UID:"))
        .map(|line| line[4..].to_string())
        .collect()
}

#[test]
fn feed_of_one_game_is_written_in_full() {
    let feed = create_ics(&vec![friday_game()]).unwrap().to_string();
    let expected = [
        "BEGIN:VCALENDAR",
        "VERSION:2.0",
        "PRODID:-//Hoiday Lesiure//Rec League Calendar Version 1.0//EN",
        "X-WR-CALNAME:Drunkin' Uncles",
        "BEGIN:VEVENT",
        "UID:g1",
        "DTSTAMP:Friday May 27 08:30 PM",
        "DTSTART:20220528T003000Z",
        "DTEND:20220528T020000Z",
        "STATUS:CONFIRMED",
        "SUMMARY:Owls at Hawks",
        "DESCRIPTION:Owls at Hawks\\nRink A",
        "LOCATION:Rink A",
        "CATEGORIES:HOCKEYGAME",
        "END:VEVENT",
        "END:VCALENDAR",
        "",
    ]
    .join("\r\n");
    assert_eq!(feed, expected);
}

#[test]
fn feed_without_games_is_the_header() {
    let feed = create_ics(&Vec::new()).unwrap().to_string();
    let expected = [
        "BEGIN:VCALENDAR",
        "VERSION:2.0",
        "PRODID:-//Hoiday Lesiure//Rec League Calendar Version 1.0//EN",
        "X-WR-CALNAME:Drunkin' Uncles",
        "END:VCALENDAR",
        "",
    ]
    .join("\r\n");
    assert_eq!(feed, expected);
}

#[test]
fn feed_agrees_with_typed_properties() {
    let game = friday_game();
    let mut expected = ics::ICalendar::new(
        "2.0",
        "-//Hoiday Lesiure//Rec League Calendar Version 1.0//EN",
    );
    expected.push(ics::components::Property::new("X-WR-CALNAME", "Drunkin' Uncles"));
    let mut event = ics::Event::new("g1", "Friday May 27 08:30 PM");
    event.push(ics::properties::DtStart::new("20220528T003000Z"));
    event.push(ics::properties::DtEnd::new("20220528T020000Z"));
    event.push(ics::properties::Status::confirmed());
    event.push(ics::properties::Summary::new("Owls at Hawks"));
    event.push(ics::properties::Description::new("Owls at Hawks\\nRink A"));
    event.push(ics::properties::Location::new("Rink A"));
    event.push(ics::properties::Categories::new("HOCKEYGAME"));
    expected.add_event(event);
    assert_eq!(create_ics(&vec![game]).unwrap(), expected);
}

#[test]
fn events_come_in_the_order_of_the_games() {
    let games = vec![
        played("g3", "Hawks", "Owls", 1653688800, "Friday May 27 06:00 PM", "Rink C"),
        played("g1", "Owls", "Falcons", 1653697800, "Friday May 27 08:30 PM", "Rink A"),
        played("g2", "Falcons", "Hawks", 1653743700, "Saturday May 28 09:15 AM", "Rink B"),
    ];
    let feed = create_ics(&games).unwrap().to_string();
    assert_eq!(identifiers_of(&feed), vec!["g3", "g1", "g2"]);
    let lines = lines_of(&feed);
    assert_eq!(lines.iter().filter(|line| *line == "BEGIN:VEVENT").count(), 3);
    assert!(lines.contains(&"SUMMARY:Falcons at Owls".to_string()));
    assert!(lines.contains(&"DTSTART:20220528T131500Z".to_string()));
    assert!(lines.contains(&"DTEND:20220528T144500Z".to_string()));
}

#[test]
fn rendering_twice_gives_the_same_identifiers() {
    let games = vec![
        played("1234", "Hawks", "Owls", 1653688800, "Friday May 27 06:00 PM", "Rink C"),
        played("5678", "Owls", "Falcons", 1653697800, "Friday May 27 08:30 PM", "Rink A"),
    ];
    let first = create_ics(&games).unwrap();
    let second = create_ics(&games).unwrap();
    assert_eq!(identifiers_of(&first.to_string()), vec!["1234", "5678"]);
    assert_eq!(identifiers_of(&first.to_string()), identifiers_of(&second.to_string()));
    assert_eq!(first, second);
}

#[test]
fn free_text_is_escaped() {
    let game = played(
        "g1",
        "Hawks, the",
        "Owls; B",
        1653697800,
        "Friday May 27 08:30 PM",
        "Rink A, back\\door\nupstairs",
    );
    let feed = create_ics(&vec![game]).unwrap().to_string();
    let lines = lines_of(&feed);
    assert!(lines.contains(&"SUMMARY:Owls\\; B at Hawks\\, the".to_string()));
    assert!(lines.contains(
        &"DESCRIPTION:Owls\\; B at Hawks\\, the\\nRink A\\, back\\\\door\\nupstairs".to_string()
    ));
    assert!(lines.contains(&"LOCATION:Rink A\\, back\\\\door\\nupstairs".to_string()));
}

#[test]
fn line_breaks_of_every_kind_become_one_escape() {
    let game = played("g1", "Hawks", "Owls", 1653697800, "soon", "a\r\nb\rc\nd\r");
    let feed = create_ics(&vec![game]).unwrap().to_string();
    assert!(lines_of(&feed).contains(&"LOCATION:a\\nb\\nc\\nd\\n".to_string()));
}

#[test]
fn identifier_is_not_escaped() {
    let game = played("a,b;c", "Hawks", "Owls", 1653697800, "soon", "Rink A");
    let feed = create_ics(&vec![game]).unwrap().to_string();
    assert_eq!(identifiers_of(&feed), vec!["a,b;c"]);
}

#[test]
fn summary_names_visitor_then_home() {
    assert_eq!(summary(&friday_game()), "Owls at Hawks");
    assert_eq!(description(&friday_game()), "Owls at Hawks\nRink A");
}

#[test]
fn event_takes_the_stamps_it_is_given() {
    let event = event_for(&friday_game(), "START", "END");
    let text = event.to_string();
    let expected = [
        "BEGIN:VEVENT",
        "UID:g1",
        "DTSTAMP:Friday May 27 08:30 PM",
        "DTSTART:START",
        "DTEND:END",
        "STATUS:CONFIRMED",
        "SUMMARY:Owls at Hawks",
        "DESCRIPTION:Owls at Hawks\\nRink A",
        "LOCATION:Rink A",
        "CATEGORIES:HOCKEYGAME",
        "END:VEVENT",
        "",
    ]
    .join("\r\n");
    assert_eq!(text, expected);
}

#[test]
fn first_game_that_cannot_be_written_is_reported() {
    let last = chrono::DateTime::<chrono::Utc>::MAX_UTC.timestamp();
    let games = vec![
        friday_game(),
        played("g2", "Hawks", "Owls", last, "at the end of time", "Rink A"),
        played("g3", "Hawks", "Owls", i64::MAX, "after it", "Rink A"),
    ];
    assert_eq!(create_ics(&games).err(), Some(UnwritableGame { index: 1 }));
}
