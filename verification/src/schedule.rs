//! The schedule: the games of a feed in the order of their starts, and the
//! time at which the schedule was made.

use crate::clock::{clock_text, format_clock, WallClock, UPDATED_FORMAT};
use crate::join::{
    feed_games, filter_of, games_of, lemma_feed_leaves_out_unknown_team, lemma_feed_names,
    lemma_filter_holds, lacks_team, plays_in, resolve_games, Game, GameModel,
};
use crate::models::{records_of, GameSheet, Record};
use crate::order::{
    chronological, in_order, lemma_in_order_chronological, lemma_in_order_has, sort_games,
};
use crate::teams::team_titles;
use vstd::prelude::*;

verus! {

/// The schedule of a league as it is published.
#[derive(Debug)]
pub struct Schedule {
    pub games: Vec<Game>,
    pub last_updated: String,
}

/// A schedule as plain values.
pub ghost struct ScheduleModel {
    pub games: Seq<GameModel>,
    pub last_updated: Seq<char>,
}

impl View for Schedule {
    type V = ScheduleModel;

    open spec fn view(&self) -> ScheduleModel {
        ScheduleModel { games: games_of(self.games@), last_updated: self.last_updated@ }
    }
}

/// The games of the schedule of a feed: its games in the order of their
/// starts.
pub open spec fn schedule_games(records: Seq<Record>, filter: Option<Seq<char>>) -> Seq<
    GameModel,
> {
    in_order(feed_games(records, filter))
}

/// The time at which a schedule was made, as people read it, given what the
/// clock showed then.
pub open spec fn updated_text(now: WallClock) -> Option<Seq<char>> {
    clock_text(now, UPDATED_FORMAT@)
}

/// The schedule of a feed is chronological.
pub proof fn lemma_schedule_is_chronological(records: Seq<Record>, filter: Option<Seq<char>>)
    ensures
        chronological(schedule_games(records, filter)),
{
    lemma_in_order_chronological(feed_games(records, filter));
}

/// The teams of every game of a schedule are teams of the feed, and where no
/// team record of the feed has an empty title, every game has two names.
pub proof fn lemma_schedule_names(records: Seq<Record>, filter: Option<Seq<char>>, i: int)
    requires
        0 <= i < schedule_games(records, filter).len(),
    ensures
        team_titles(records).contains_value(schedule_games(records, filter)[i].home),
        team_titles(records).contains_value(schedule_games(records, filter)[i].visitor),
        (forall|k: int|
            0 <= k < records.len() ==> (#[trigger] records[k] matches Record::Team { id: _, title }
                ==> title.len() > 0)) ==> schedule_games(records, filter)[i].home.len() > 0
            && schedule_games(records, filter)[i].visitor.len() > 0,
{
    let source = lemma_in_order_has(feed_games(records, filter), i);
    lemma_feed_names(records, filter, source);
}

/// A scheduled game whose home team or visitor is none of the feed's teams is
/// absent from the schedule: with the record or without it, the schedule is
/// the same.
pub proof fn lemma_schedule_leaves_out_unknown_team(
    records: Seq<Record>,
    filter: Option<Seq<char>>,
    at: int,
)
    requires
        0 <= at < records.len(),
        lacks_team(records[at], team_titles(records)),
    ensures
        schedule_games(records.remove(at), filter) == schedule_games(records, filter),
{
    lemma_feed_leaves_out_unknown_team(records, filter, at);
}

/// With a filter, the named team plays in every game of the schedule.
pub proof fn lemma_schedule_filter_holds(records: Seq<Record>, team: Seq<char>, i: int)
    requires
        0 <= i < schedule_games(records, Some(team)).len(),
    ensures
        plays_in(team, schedule_games(records, Some(team))[i]),
{
    let source = lemma_in_order_has(feed_games(records, Some(team)), i);
    lemma_filter_holds(records, team_titles(records), team, source);
}

/// The games of the schedule of a feed.
pub fn scheduled_games(sheet: &GameSheet, filter: &Option<String>) -> (games: Vec<Game>)
    ensures
        games_of(games@) == schedule_games(records_of(sheet.included@), filter_of(*filter)),
        chronological(games_of(games@)),
{
    let mut games = resolve_games(&sheet.included, filter);
    sort_games(&mut games);
    games
}

/// Writes out the time at which a schedule was made.
pub fn last_updated(now: WallClock) -> (text: Option<String>)
    ensures
        text.is_some() == updated_text(now).is_some(),
        text matches Some(written) ==> updated_text(now) == Some(written@),
{
    format_clock(now, UPDATED_FORMAT)
}

impl Schedule {
    /// Whether the schedule is as it should be: no game starts before a game
    /// in front of it.
    pub open spec fn wf(&self) -> bool {
        chronological(self@.games)
    }

    /// The schedule of these games, made at the time that `last_updated`
    /// tells. The games are put in the order of their starts.
    pub fn new(games: Vec<Game>, last_updated: String) -> (schedule: Schedule)
        ensures
            schedule.wf(),
            schedule@ == (ScheduleModel {
                games: in_order(games_of(games@)),
                last_updated: last_updated@,
            }),
            schedule@.games.to_multiset() == games_of(games@).to_multiset(),
    {
        let mut games = games;
        sort_games(&mut games);
        Schedule { games, last_updated }
    }
}

/// The schedule of a feed, made when the clock showed `now`. There is none
/// where that time cannot be written out.
pub fn build_schedule(sheet: &GameSheet, filter: &Option<String>, now: WallClock) -> (schedule:
    Option<Schedule>)
    ensures
        schedule.is_some() == updated_text(now).is_some(),
        schedule matches Some(built) ==> {
            &&& built@.games == schedule_games(records_of(sheet.included@), filter_of(*filter))
            &&& Some(built@.last_updated) == updated_text(now)
            &&& built.wf()
        },
{
    match last_updated(now) {
        None => None,
        Some(text) => Some(Schedule::new(resolve_games(&sheet.included, filter), text)),
    }
}

} // verus!
