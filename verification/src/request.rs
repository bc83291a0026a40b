//! The request that asks the league's service for a schedule: where it goes
//! and what it asks for. Sending it is the caller's part.

use crate::clock::{clock_text, format_clock, WallClock};
use vstd::prelude::*;
use vstd::string::*;

verus! {

/// The host of the league's service.
pub const BASE_URL: &'static str = "https://gamesheet.app";

/// How the first moment of a day is written in a request. Like the service's
/// own times it ends in a `Z` that means nothing.
pub const DAY_START_FORMAT: &'static str = "%Y-%m-%dT00:00:00Z";

/// A request for a schedule: the path on the host and the query.
#[derive(Debug)]
pub struct ScheduleRequest {
    pub path: String,
    pub query: String,
}

/// The character for a digit.
pub open spec fn digit_of(value: nat) -> char {
    if value == 0 {
        '0'
    } else if value == 1 {
        '1'
    } else if value == 2 {
        '2'
    } else if value == 3 {
        '3'
    } else if value == 4 {
        '4'
    } else if value == 5 {
        '5'
    } else if value == 6 {
        '6'
    } else if value == 7 {
        '7'
    } else if value == 8 {
        '8'
    } else {
        '9'
    }
}

/// A number in decimal digits, without leading zeros.
pub open spec fn decimal(number: nat) -> Seq<char>
    decreases number,
{
    if number < 10 {
        seq![digit_of(number)]
    } else {
        decimal(number / 10).push(digit_of(number % 10))
    }
}

/// The path of the schedule of a season.
pub open spec fn path_of(season: u32) -> Seq<char> {
    "api/stats/v1/seasons/"@ + decimal(season as nat) + "/schedule"@
}

/// The query for the first page, of at most fifty records, of the games that
/// start at `since` or later.
pub open spec fn query_of(since: Seq<char>) -> Seq<char> {
    "offset=0&limit=50&filter[start_time_from]="@ + since
}

/// The first moment of the day that the clock `now` shows, as a request
/// writes it.
pub open spec fn day_start(now: WallClock) -> Option<Seq<char>> {
    clock_text(now, DAY_START_FORMAT@)
}

/// A digit as text.
fn digit_text(value: u32) -> (text: &'static str)
    requires
        value < 10,
    ensures
        text@ == seq![digit_of(value as nat)],
{
    proof {
        reveal_strlit("0");
        reveal_strlit("1");
        reveal_strlit("2");
        reveal_strlit("3");
        reveal_strlit("4");
        reveal_strlit("5");
        reveal_strlit("6");
        reveal_strlit("7");
        reveal_strlit("8");
        reveal_strlit("9");
    }
    if value == 0 {
        "0"
    } else if value == 1 {
        "1"
    } else if value == 2 {
        "2"
    } else if value == 3 {
        "3"
    } else if value == 4 {
        "4"
    } else if value == 5 {
        "5"
    } else if value == 6 {
        "6"
    } else if value == 7 {
        "7"
    } else if value == 8 {
        "8"
    } else {
        "9"
    }
}

/// A number in decimal digits.
pub fn decimal_text(number: u32) -> (text: String)
    ensures
        text@ == decimal(number as nat),
    decreases number,
{
    if number < 10 {
        digit_text(number).to_owned()
    } else {
        let mut text = decimal_text(number / 10);
        text.append(digit_text(number % 10));
        text
    }
}

/// The path of the schedule of a season.
pub fn schedule_path(season: u32) -> (path: String)
    ensures
        path@ == path_of(season),
{
    let mut path = "api/stats/v1/seasons/".to_owned();
    path.append(decimal_text(season).as_str());
    path.append("/schedule");
    path
}

/// The query for the games that start at `since` or later.
pub fn schedule_query(since: &str) -> (query: String)
    ensures
        query@ == query_of(since@),
{
    let mut query = "offset=0&limit=50&filter[start_time_from]=".to_owned();
    query.append(since);
    query
}

/// The request for the games of a season from today on, where `now` is what
/// the clock shows. There is none where that day cannot be written.
pub fn schedule_request(season: u32, now: WallClock) -> (request: Option<ScheduleRequest>)
    ensures
        request.is_some() == day_start(now).is_some(),
        request matches Some(asked) ==> asked.path@ == path_of(season) && day_start(now) == Some(
            asked.query@.skip("offset=0&limit=50&filter[start_time_from]="@.len() as int),
        ) && asked.query@ == query_of(day_start(now).unwrap()),
{
    match format_clock(now, DAY_START_FORMAT) {
        None => None,
        Some(since) => {
            let query = schedule_query(since.as_str());
            Some(ScheduleRequest { path: schedule_path(season), query })
        },
    }
}

} // verus!
