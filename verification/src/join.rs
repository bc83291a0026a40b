//! The join of games with teams: each scheduled game whose two teams are
//! known, which the filter lets through and whose start can be read becomes a
//! game of the schedule. Every other record is left out without an error.

use crate::clock::{league_start, read_start, Instant, StartModel, StartTime};
use crate::models::{records_of, Included, Record};
use crate::teams::{team_titles, TeamDirectory};
use vstd::prelude::*;

verus! {

/// A game of the schedule, with the names of its teams and its start.
#[derive(Debug)]
pub struct Game {
    pub id: String,
    pub home: String,
    pub visitor: String,
    pub scheduled_at: Instant,
    pub scheduled_at_pretty: String,
    pub location: String,
}

/// A game as plain values.
pub ghost struct GameModel {
    pub id: Seq<char>,
    pub home: Seq<char>,
    pub visitor: Seq<char>,
    pub scheduled_at: Instant,
    pub scheduled_at_pretty: Seq<char>,
    pub location: Seq<char>,
}

impl View for Game {
    type V = GameModel;

    open spec fn view(&self) -> GameModel {
        GameModel {
            id: self.id@,
            home: self.home@,
            visitor: self.visitor@,
            scheduled_at: self.scheduled_at,
            scheduled_at_pretty: self.scheduled_at_pretty@,
            location: self.location@,
        }
    }
}

/// A list of games as plain values.
pub open spec fn games_of(games: Seq<Game>) -> Seq<GameModel> {
    games.map_values(|game: Game| game@)
}

/// A team filter as plain values.
pub open spec fn filter_of(filter: Option<String>) -> Option<Seq<char>> {
    match filter {
        Some(team) => Some(team@),
        None => None,
    }
}

/// A start time, if there is one, as plain values.
pub open spec fn start_of(start: Option<StartTime>) -> Option<StartModel> {
    match start {
        Some(start) => Some(start@),
        None => None,
    }
}

/// Whether the filter lets a game of these two teams through: without a
/// filter every game passes, with one only a game in which the named team
/// plays, at home or away. Names are compared letter for letter.
pub open spec fn involves(filter: Option<Seq<char>>, home: Seq<char>, visitor: Seq<char>) -> bool {
    match filter {
        None => true,
        Some(team) => home == team || visitor == team,
    }
}

/// The game that a record gives, given the directory of teams, the filter and
/// the start that was read from the record's start time. There is a game
/// exactly where the record is a scheduled game that names both teams, the
/// directory knows both, the filter lets it through and there is a start.
pub open spec fn resolved(
    record: Record,
    teams: Map<Seq<char>, Seq<char>>,
    filter: Option<Seq<char>>,
    start: Option<StartModel>,
) -> Option<GameModel> {
    match record {
        Record::Game { id, start: _, location, home: Some(home), visitor: Some(visitor) } => {
            if teams.contains_key(home) && teams.contains_key(visitor) && involves(
                filter,
                teams[home],
                teams[visitor],
            ) {
                match start {
                    Some(start) => Some(
                        GameModel {
                            id,
                            home: teams[home],
                            visitor: teams[visitor],
                            scheduled_at: start.instant,
                            scheduled_at_pretty: start.pretty,
                            location,
                        },
                    ),
                    None => None,
                }
            } else {
                None
            }
        },
        _ => None,
    }
}

/// The start that a record's start time stands for; only a scheduled game has
/// one.
pub open spec fn record_start(record: Record) -> Option<StartModel> {
    match record {
        Record::Game { id: _, start, location: _, home: _, visitor: _ } => league_start(start),
        _ => None,
    }
}

/// The games that a list of records gives, in the order of the records.
pub open spec fn joined(
    records: Seq<Record>,
    teams: Map<Seq<char>, Seq<char>>,
    filter: Option<Seq<char>>,
) -> Seq<GameModel>
    decreases records.len(),
{
    if records.len() == 0 {
        Seq::empty()
    } else {
        let before = joined(records.drop_last(), teams, filter);
        match resolved(records.last(), teams, filter, record_start(records.last())) {
            Some(game) => before.push(game),
            None => before,
        }
    }
}

/// The games of a feed: its scheduled games joined with its own teams.
pub open spec fn feed_games(records: Seq<Record>, filter: Option<Seq<char>>) -> Seq<GameModel> {
    joined(records, team_titles(records), filter)
}

/// Whether a record is a scheduled game that leaves a team out or names one
/// that the directory does not know.
pub open spec fn lacks_team(record: Record, teams: Map<Seq<char>, Seq<char>>) -> bool {
    match record {
        Record::Game { id: _, start: _, location: _, home, visitor } => {
            ||| home matches None
            ||| visitor matches None
            ||| home matches Some(name) && !teams.contains_key(name)
            ||| visitor matches Some(name) && !teams.contains_key(name)
        },
        _ => false,
    }
}

/// Whether the named team plays in a game, at home or away.
pub open spec fn plays_in(team: Seq<char>, game: GameModel) -> bool {
    game.home == team || game.visitor == team
}

/// Every game of a join comes from one of the records: there is a record that
/// resolves to it.
pub proof fn lemma_game_has_record(
    records: Seq<Record>,
    teams: Map<Seq<char>, Seq<char>>,
    filter: Option<Seq<char>>,
    i: int,
) -> (source: int)
    requires
        0 <= i < joined(records, teams, filter).len(),
    ensures
        0 <= source < records.len(),
        resolved(records[source], teams, filter, record_start(records[source])) == Some(
            joined(records, teams, filter)[i],
        ),
    decreases records.len(),
{
    let before = joined(records.drop_last(), teams, filter);
    if i < before.len() {
        lemma_game_has_record(records.drop_last(), teams, filter, i)
    } else {
        records.len() - 1
    }
}

/// The two names of every game of a join are titles of the directory.
pub proof fn lemma_names_come_from_teams(
    records: Seq<Record>,
    teams: Map<Seq<char>, Seq<char>>,
    filter: Option<Seq<char>>,
    i: int,
)
    requires
        0 <= i < joined(records, teams, filter).len(),
    ensures
        teams.contains_value(joined(records, teams, filter)[i].home),
        teams.contains_value(joined(records, teams, filter)[i].visitor),
{
    let source = lemma_game_has_record(records, teams, filter, i);
}

/// Where every team of the directory has a name, so has every team of every
/// game of a join.
pub proof fn lemma_names_are_not_empty(
    records: Seq<Record>,
    teams: Map<Seq<char>, Seq<char>>,
    filter: Option<Seq<char>>,
    i: int,
)
    requires
        0 <= i < joined(records, teams, filter).len(),
        forall|id: Seq<char>| teams.contains_key(id) ==> (#[trigger] teams[id]).len() > 0,
    ensures
        joined(records, teams, filter)[i].home.len() > 0,
        joined(records, teams, filter)[i].visitor.len() > 0,
{
    let source = lemma_game_has_record(records, teams, filter, i);
}

/// Every title of the directory of a feed is the title of one of its team
/// records.
pub proof fn lemma_title_has_record(records: Seq<Record>, id: Seq<char>) -> (source: int)
    requires
        team_titles(records).contains_key(id),
    ensures
        0 <= source < records.len(),
        records[source] == (Record::Team { id, title: team_titles(records)[id] }),
    decreases records.len(),
{
    match records.last() {
        Record::Team { id: last, title: _ } => {
            if last == id {
                records.len() - 1
            } else {
                lemma_title_has_record(records.drop_last(), id)
            }
        },
        _ => lemma_title_has_record(records.drop_last(), id),
    }
}

/// The games of a feed name only teams of the feed, and where no team record
/// of the feed has an empty title, no game has a team without a name.
pub proof fn lemma_feed_names(records: Seq<Record>, filter: Option<Seq<char>>, i: int)
    requires
        0 <= i < feed_games(records, filter).len(),
    ensures
        team_titles(records).contains_value(feed_games(records, filter)[i].home),
        team_titles(records).contains_value(feed_games(records, filter)[i].visitor),
        (forall|k: int|
            0 <= k < records.len() ==> (#[trigger] records[k] matches Record::Team { id: _, title }
                ==> title.len() > 0)) ==> feed_games(records, filter)[i].home.len() > 0
            && feed_games(records, filter)[i].visitor.len() > 0,
{
    let teams = team_titles(records);
    lemma_names_come_from_teams(records, teams, filter, i);
    if forall|k: int|
        0 <= k < records.len() ==> (#[trigger] records[k] matches Record::Team { id: _, title }
            ==> title.len() > 0) {
        assert forall|id: Seq<char>| teams.contains_key(id) implies (#[trigger] teams[id]).len()
            > 0 by {
            let source = lemma_title_has_record(records, id);
        }
        lemma_names_are_not_empty(records, teams, filter, i);
    }
}

/// A scheduled game that lacks a team leaves no trace in the join: the games
/// are those of the records without it.
pub proof fn lemma_game_without_team_is_left_out(
    records: Seq<Record>,
    teams: Map<Seq<char>, Seq<char>>,
    filter: Option<Seq<char>>,
    at: int,
)
    requires
        0 <= at < records.len(),
        lacks_team(records[at], teams),
    ensures
        joined(records.remove(at), teams, filter) == joined(records, teams, filter),
    decreases records.len(),
{
    if at < records.len() - 1 {
        assert(records.remove(at).drop_last() == records.drop_last().remove(at));
        lemma_game_without_team_is_left_out(records.drop_last(), teams, filter, at);
    }
}

/// A record that is no team adds nothing to the directory of a feed.
pub proof fn lemma_directory_without_record(records: Seq<Record>, at: int)
    requires
        0 <= at < records.len(),
        !(records[at] is Team),
    ensures
        team_titles(records.remove(at)) == team_titles(records),
    decreases records.len(),
{
    if at < records.len() - 1 {
        assert(records.remove(at).drop_last() == records.drop_last().remove(at));
        lemma_directory_without_record(records.drop_last(), at);
    }
}

/// A scheduled game of a feed whose home team or visitor is none of the
/// feed's teams is absent from the feed's games: with the record or without
/// it, the games are the same.
pub proof fn lemma_feed_leaves_out_unknown_team(
    records: Seq<Record>,
    filter: Option<Seq<char>>,
    at: int,
)
    requires
        0 <= at < records.len(),
        lacks_team(records[at], team_titles(records)),
    ensures
        feed_games(records.remove(at), filter) == feed_games(records, filter),
{
    lemma_directory_without_record(records, at);
    lemma_game_without_team_is_left_out(records, team_titles(records), filter, at);
}

/// With a filter, every game of a join has the named team at home or away.
pub proof fn lemma_filter_holds(
    records: Seq<Record>,
    teams: Map<Seq<char>, Seq<char>>,
    team: Seq<char>,
    i: int,
)
    requires
        0 <= i < joined(records, teams, Some(team)).len(),
    ensures
        plays_in(team, joined(records, teams, Some(team))[i]),
{
    let source = lemma_game_has_record(records, teams, Some(team), i);
}

/// The filter leaves out nothing but the games of other teams: the join with
/// a filter is the join without one, cut down to the games in which the named
/// team plays.
pub proof fn lemma_filter_only_selects(
    records: Seq<Record>,
    teams: Map<Seq<char>, Seq<char>>,
    team: Seq<char>,
)
    ensures
        joined(records, teams, Some(team)) == joined(records, teams, None).filter(
            |game: GameModel| plays_in(team, game),
        ),
    decreases records.len(),
{
    let plays = |game: GameModel| plays_in(team, game);
    if records.len() == 0 {
        Seq::<GameModel>::empty().lemma_all_neg_filter_empty(plays);
    } else {
        lemma_filter_only_selects(records.drop_last(), teams, team);
        let all = joined(records.drop_last(), teams, None);
        match resolved(records.last(), teams, None, record_start(records.last())) {
            Some(game) => {
                all.lemma_filter_push(game, plays);
            },
            None => {},
        }
    }
}

/// Whether the filter lets a game of these two teams through.
pub fn passes_filter(filter: &Option<String>, home: &String, visitor: &String) -> (passes: bool)
    ensures
        passes == involves(filter_of(*filter), home@, visitor@),
{
    match filter {
        None => true,
        Some(team) => *home == *team || *visitor == *team,
    }
}

/// Resolves one record, given the start that was read from its start time.
pub fn resolve_game(
    record: &Included,
    teams: &TeamDirectory,
    filter: &Option<String>,
    start: Option<StartTime>,
) -> (game: Option<Game>)
    ensures
        game.is_some() == resolved(record@, teams@, filter_of(*filter), start_of(start)).is_some(),
        game matches Some(found) ==> resolved(record@, teams@, filter_of(*filter), start_of(start))
            == Some(found@),
{
    match record {
        Included::ScheduledGames { id, attributes, relationships } => {
            let home = match relationships.home_id() {
                Some(reference) => match teams.get(reference) {
                    Some(title) => title,
                    None => return None,
                },
                None => return None,
            };
            let visitor = match relationships.visitor_id() {
                Some(reference) => match teams.get(reference) {
                    Some(title) => title,
                    None => return None,
                },
                None => return None,
            };
            if !passes_filter(filter, home, visitor) {
                return None;
            }
            match start {
                Some(start) => Some(
                    Game {
                        id: id.clone(),
                        home: home.clone(),
                        visitor: visitor.clone(),
                        scheduled_at: start.instant,
                        scheduled_at_pretty: start.pretty,
                        location: attributes.location.clone(),
                    },
                ),
                None => None,
            }
        },
        _ => None,
    }
}

/// Reads the start of a record: that of its start time where it is a
/// scheduled game, none otherwise.
pub fn read_record_start(record: &Included) -> (start: Option<StartTime>)
    ensures
        start.is_some() == record_start(record@).is_some(),
        start matches Some(read) ==> record_start(record@) == Some(read@),
{
    match record {
        Included::ScheduledGames { id: _, attributes, relationships: _ } => read_start(
            attributes.scheduled_start_time.as_str(),
        ),
        _ => None,
    }
}

/// Joins the scheduled games among `records` with `teams`, in the order of
/// the records.
pub fn join_games(records: &Vec<Included>, teams: &TeamDirectory, filter: &Option<String>) -> (games:
    Vec<Game>)
    ensures
        games_of(games@) == joined(records_of(records@), teams@, filter_of(*filter)),
{
    let mut games: Vec<Game> = Vec::new();
    let mut i: usize = 0;
    while i < records.len()
        invariant
            i <= records.len(),
            games_of(games@) == joined(
                records_of(records@).take(i as int),
                teams@,
                filter_of(*filter),
            ),
        decreases records.len() - i,
    {
        proof {
            assert(records_of(records@).take(i + 1).drop_last() == records_of(records@).take(
                i as int,
            ));
        }
        let start = read_record_start(&records[i]);
        match resolve_game(&records[i], teams, filter, start) {
            Some(game) => {
                games.push(game);
            },
            None => {},
        }
        i += 1;
    }
    proof {
        assert(records_of(records@).take(i as int) == records_of(records@));
    }
    games
}

/// The games of a feed: builds the directory of its teams, then joins its
/// scheduled games with it.
pub fn resolve_games(records: &Vec<Included>, filter: &Option<String>) -> (games: Vec<Game>)
    ensures
        games_of(games@) == feed_games(records_of(records@), filter_of(*filter)),
{
    let teams = TeamDirectory::from_records(records);
    join_games(records, &teams, filter)
}

} // verus!
