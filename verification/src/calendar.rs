//! The calendar feed: one event per game, built with the `ics` crate.

use crate::clock::{
    clock_text, format_clock, instant_after, plus_minutes, Instant, STAMP_FORMAT,
};
use crate::join::{games_of, Game, GameModel};
use vstd::prelude::*;
use vstd::string::*;

verus! {

/// The version of the calendar format that the feed is written in.
pub const CALENDAR_VERSION: &'static str = "2.0";

/// The product that the feed names as its maker.
pub const PRODUCT: &'static str = "-//Hoiday Lesiure//Rec League Calendar Version 1.0//EN";

/// The name under which calendar programs show the feed.
pub const CALENDAR_NAME: &'static str = "Drunkin' Uncles";

/// The category of every event.
pub const CATEGORY: &'static str = "HOCKEYGAME";

/// How long a game is taken to last, in minutes. The league publishes no
/// end.
pub const GAME_MINUTES: i64 = 90;

#[verifier::external_type_specification]
#[verifier::external_body]
pub struct ExICalendar<'a>(ics::ICalendar<'a>);

#[verifier::external_type_specification]
#[verifier::external_body]
pub struct ExEvent<'a>(ics::Event<'a>);

/// The properties of an event in the order in which they were added, each as
/// its key and its value.
pub uninterp spec fn event_properties(event: ics::Event<'static>) -> Seq<(Seq<char>, Seq<char>)>;

/// The properties of the calendar object itself, in order, each as its key
/// and its value.
pub uninterp spec fn calendar_properties(calendar: ics::ICalendar<'static>) -> Seq<
    (Seq<char>, Seq<char>),
>;

/// The events of a calendar in the order in which they were added, each as
/// its properties.
pub uninterp spec fn calendar_events(calendar: ics::ICalendar<'static>) -> Seq<
    Seq<(Seq<char>, Seq<char>)>,
>;

/// A text as the calendar format wants it inside a value: a backslash goes in
/// front of a comma, a semicolon and a backslash, and every line break,
/// written as a line feed, as a carriage return or as both, becomes a
/// backslash and the letter `n`.
pub open spec fn escaped(text: Seq<char>) -> Seq<char>
    decreases text.len(),
{
    if text.len() == 0 {
        Seq::empty()
    } else {
        let first = text[0];
        let rest = escaped(text.skip(1));
        if first == ',' || first == ';' || first == '\\' {
            seq!['\\', first] + rest
        } else if first == '\n' {
            seq!['\\', 'n'] + rest
        } else if first == '\r' {
            if text.len() > 1 && text[1] == '\n' {
                rest
            } else {
                seq!['\\', 'n'] + rest
            }
        } else {
            seq![first] + rest
        }
    }
}

/// Calls `ics::escape_text`. The contract states what its source does.
#[verifier::external_body]
pub(crate) fn escape(text: &str) -> (r: String)
    ensures
        r@ == escaped(text@),
{
    ics::escape_text(text).into_owned()
}

/// Calls `ics::Event::new`, which starts an event with the two properties
/// `UID` and `DTSTAMP`, in that order.
#[verifier::external_body]
pub(crate) fn new_event(uid: &str, stamp: &str) -> (event: ics::Event<'static>)
    ensures
        event_properties(event) == seq![("UID"@, uid@), ("DTSTAMP"@, stamp@)],
{
    ics::Event::new(uid.to_string(), stamp.to_string())
}

/// Calls `ics::Event::push` with a property made by
/// `ics::components::Property::new`: the property goes to the end.
#[verifier::external_body]
pub(crate) fn push_event_property(event: &mut ics::Event<'static>, key: &str, value: &str)
    ensures
        event_properties(*final(event)) == event_properties(*old(event)).push((key@, value@)),
{
    event.push(ics::components::Property::new(key.to_string(), value.to_string()));
}

/// Calls `ics::ICalendar::new`, which starts a calendar with the two
/// properties `VERSION` and `PRODID`, in that order, and no event.
#[verifier::external_body]
pub(crate) fn new_calendar(version: &str, product: &str) -> (calendar: ics::ICalendar<'static>)
    ensures
        calendar_properties(calendar) == seq![("VERSION"@, version@), ("PRODID"@, product@)],
        calendar_events(calendar) == Seq::<Seq<(Seq<char>, Seq<char>)>>::empty(),
{
    ics::ICalendar::new(version.to_string(), product.to_string())
}

/// Calls `ics::ICalendar::push` with a property made by
/// `ics::components::Property::new`: the property goes to the end, the events
/// stay.
#[verifier::external_body]
pub(crate) fn push_calendar_property(
    calendar: &mut ics::ICalendar<'static>,
    key: &str,
    value: &str,
)
    ensures
        calendar_properties(*final(calendar)) == calendar_properties(*old(calendar)).push(
            (key@, value@),
        ),
        calendar_events(*final(calendar)) == calendar_events(*old(calendar)),
{
    calendar.push(ics::components::Property::new(key.to_string(), value.to_string()));
}

/// Calls `ics::ICalendar::add_event`: the event goes behind the events
/// already there, the calendar's own properties stay.
#[verifier::external_body]
pub(crate) fn add_event(calendar: &mut ics::ICalendar<'static>, event: ics::Event<'static>)
    ensures
        calendar_events(*final(calendar)) == calendar_events(*old(calendar)).push(
            event_properties(event),
        ),
        calendar_properties(*final(calendar)) == calendar_properties(*old(calendar)),
{
    calendar.add_event(event);
}

/// The line that names a game: the visitor at the home team.
pub open spec fn summary_of(game: GameModel) -> Seq<char> {
    game.visitor + " at "@ + game.home
}

/// What an event says of its game: the summary, and the location on the line
/// after it.
pub open spec fn description_of(game: GameModel) -> Seq<char> {
    summary_of(game) + "\n"@ + game.location
}

/// The properties of the event of a game, given its start and its end as the
/// feed writes them. The identifier of the event is that of the game, so that
/// a game keeps its event from one feed to the next. Summary, description and
/// location are free text and are escaped.
pub open spec fn event_of(game: GameModel, start: Seq<char>, end: Seq<char>) -> Seq<
    (Seq<char>, Seq<char>),
> {
    seq![
        ("UID"@, game.id),
        ("DTSTAMP"@, game.scheduled_at_pretty),
        ("DTSTART"@, start),
        ("DTEND"@, end),
        ("STATUS"@, "CONFIRMED"@),
        ("SUMMARY"@, escaped(summary_of(game))),
        ("DESCRIPTION"@, escaped(description_of(game))),
        ("LOCATION"@, escaped(game.location)),
        ("CATEGORIES"@, CATEGORY@),
    ]
}

/// The properties that every feed starts with.
pub open spec fn feed_header() -> Seq<(Seq<char>, Seq<char>)> {
    seq![
        ("VERSION"@, CALENDAR_VERSION@),
        ("PRODID"@, PRODUCT@),
        ("X-WR-CALNAME"@, CALENDAR_NAME@),
    ]
}

/// An instant as the feed writes it: the date and the time in UTC.
pub open spec fn stamp_of(instant: Instant) -> Option<Seq<char>> {
    clock_text(instant.utc_reading(), STAMP_FORMAT@)
}

/// The start and the end of a game that starts at `start`, as the feed writes
/// them. The end is the start and the length of a game. There are none where
/// the end is later than calendars reach, or a stamp cannot be written.
pub open spec fn event_times(start: Instant) -> Option<(Seq<char>, Seq<char>)> {
    match instant_after(start, GAME_MINUTES as int) {
        None => None,
        Some(end) => match stamp_of(start) {
            None => None,
            Some(start_stamp) => match stamp_of(end) {
                None => None,
                Some(end_stamp) => Some((start_stamp, end_stamp)),
            },
        },
    }
}

/// The event of a game, where its times can be written.
pub open spec fn game_event(game: GameModel) -> Option<Seq<(Seq<char>, Seq<char>)>> {
    match event_times(game.scheduled_at) {
        None => None,
        Some((start, end)) => Some(event_of(game, start, end)),
    }
}

/// A game whose event cannot be written, by its place in the list.
#[derive(Clone, Copy, Debug, PartialEq, Eq, Structural)]
pub struct UnwritableGame {
    pub index: usize,
}

/// The instant at which a game that starts at `start` is taken to end. Going
/// forward, the end is ninety times sixty seconds after the start, and no
/// longer inside a leap second.
pub fn game_end(start: Instant) -> (end: Option<Instant>)
    ensures
        end == instant_after(start, GAME_MINUTES as int),
        end matches Some(at) ==> at.seconds == start.seconds + 60 * GAME_MINUTES && at.nanos
            == start.nanos % 1_000_000_000,
{
    plus_minutes(start, GAME_MINUTES)
}

/// Writes an instant as the feed has it.
pub fn stamp(instant: Instant) -> (text: Option<String>)
    ensures
        text.is_some() == stamp_of(instant).is_some(),
        text matches Some(written) ==> stamp_of(instant) == Some(written@),
{
    format_clock(instant.utc_clock(), STAMP_FORMAT)
}

/// The line that names a game.
pub fn summary(game: &Game) -> (text: String)
    ensures
        text@ == summary_of(game@),
{
    let mut text = game.visitor.clone();
    text.append(" at ");
    text.append(game.home.as_str());
    text
}

/// What an event says of its game.
pub fn description(game: &Game) -> (text: String)
    ensures
        text@ == description_of(game@),
{
    let mut text = summary(game);
    text.append("\n");
    text.append(game.location.as_str());
    text
}

/// Builds the event of a game from the game and its two stamps.
pub fn event_for(game: &Game, start: &str, end: &str) -> (event: ics::Event<'static>)
    ensures
        event_properties(event) == event_of(game@, start@, end@),
{
    let mut event = new_event(game.id.as_str(), game.scheduled_at_pretty.as_str());
    push_event_property(&mut event, "DTSTART", start);
    push_event_property(&mut event, "DTEND", end);
    push_event_property(&mut event, "STATUS", "CONFIRMED");
    push_event_property(&mut event, "SUMMARY", escape(summary(game).as_str()).as_str());
    push_event_property(&mut event, "DESCRIPTION", escape(description(game).as_str()).as_str());
    push_event_property(&mut event, "LOCATION", escape(game.location.as_str()).as_str());
    push_event_property(&mut event, "CATEGORIES", CATEGORY);
    event
}

/// Builds the event of a game, where its times can be written.
pub fn event_of_game(game: &Game) -> (event: Option<ics::Event<'static>>)
    ensures
        event.is_some() == game_event(game@).is_some(),
        event matches Some(built) ==> game_event(game@) == Some(event_properties(built)),
{
    match game_end(game.scheduled_at) {
        None => None,
        Some(end) => match stamp(game.scheduled_at) {
            None => None,
            Some(start_stamp) => match stamp(end) {
                None => None,
                Some(end_stamp) => Some(event_for(game, start_stamp.as_str(), end_stamp.as_str())),
            },
        },
    }
}

/// Whether a calendar is the feed of a list of games: it has the header and
/// one event per game, in the order of the list, each the event of its game.
pub open spec fn is_feed_of(calendar: ics::ICalendar<'static>, games: Seq<GameModel>) -> bool {
    &&& calendar_properties(calendar) == feed_header()
    &&& calendar_events(calendar).len() == games.len()
    &&& forall|i: int|
        0 <= i < games.len() ==> game_event(games[i]) == Some(
            #[trigger] calendar_events(calendar)[i],
        )
}

/// In a feed, the identifier of each event is the identifier of its game.
pub proof fn lemma_feed_identifiers(
    calendar: ics::ICalendar<'static>,
    games: Seq<GameModel>,
    i: int,
)
    requires
        is_feed_of(calendar, games),
        0 <= i < games.len(),
    ensures
        calendar_events(calendar)[i][0] == ("UID"@, games[i].id),
{
}

/// Rendering the same games again gives the same feed: the same header and
/// the same events, and so the same identifiers.
pub proof fn lemma_feeds_agree(
    first: ics::ICalendar<'static>,
    second: ics::ICalendar<'static>,
    games: Seq<GameModel>,
)
    requires
        is_feed_of(first, games),
        is_feed_of(second, games),
    ensures
        calendar_properties(first) == calendar_properties(second),
        calendar_events(first) == calendar_events(second),
{
    assert forall|i: int| 0 <= i < games.len() implies calendar_events(first)[i]
        == calendar_events(second)[i] by {}
}

/// Builds the calendar feed of a list of games: the header, then one event
/// per game in the order of the list. Fails on the first game whose event
/// cannot be written, and then builds nothing.
pub fn create_ics(games: &Vec<Game>) -> (feed: Result<ics::ICalendar<'static>, UnwritableGame>)
    ensures
        feed.is_ok() == (forall|i: int|
            0 <= i < games.len() ==> game_event(#[trigger] games[i]@).is_some()),
        feed matches Ok(calendar) ==> is_feed_of(calendar, games_of(games@)),
        feed matches Err(failure) ==> {
            &&& failure.index < games.len()
            &&& game_event(games[failure.index as int]@).is_none()
            &&& forall|i: int| 0 <= i < failure.index ==> game_event(#[trigger] games[i]@).is_some()
        },
{
    let mut calendar = new_calendar(CALENDAR_VERSION, PRODUCT);
    push_calendar_property(&mut calendar, "X-WR-CALNAME", CALENDAR_NAME);
    let mut i: usize = 0;
    while i < games.len()
        invariant
            i <= games.len(),
            calendar_properties(calendar) == feed_header(),
            calendar_events(calendar).len() == i,
            forall|k: int|
                0 <= k < i ==> game_event(games[k]@) == Some(#[trigger] calendar_events(calendar)[k]),
            forall|k: int| 0 <= k < i ==> game_event(#[trigger] games[k]@).is_some(),
        decreases games.len() - i,
    {
        match event_of_game(&games[i]) {
            None => {
                return Err(UnwritableGame { index: i });
            },
            Some(event) => {
                add_event(&mut calendar, event);
            },
        }
        i += 1;
    }
    Ok(calendar)
}

} // verus!
