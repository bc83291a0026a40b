//! The records of a league's schedule feed: a flat list in which each record
//! is a team, a scheduled game, or something this library does not read.

use vstd::prelude::*;

verus! {

#[derive(Debug)]
pub struct TeamAttributes {
    pub title: String,
}

#[derive(Debug)]
pub struct GameAttributes {
    pub scheduled_start_time: String,
    pub location: String,
}

#[derive(Debug)]
pub struct Data {
    pub id: String,
}

/// A reference to a team. The feed may leave the `data` out.
#[derive(Debug)]
pub struct TeamData {
    pub data: Option<Data>,
}

/// The two teams of a game. The feed may leave either out.
#[derive(Debug)]
pub struct GameRelationships {
    pub home_team: Option<TeamData>,
    pub visitor_team: Option<TeamData>,
}

#[derive(Debug)]
#[allow(inconsistent_fields)]
pub enum Included {
    ScheduledGames { id: String, attributes: GameAttributes, relationships: GameRelationships },
    Teams { id: String, attributes: TeamAttributes },
    /// A record of any other kind.
    Ignored,
}

#[derive(Debug)]
pub struct GameSheet {
    pub included: Vec<Included>,
}

/// A record as plain values. A team reference is the identifier it names, or
/// `None` where the feed left the reference or its `data` out.
pub ghost enum Record {
    Team { id: Seq<char>, title: Seq<char> },
    Game {
        id: Seq<char>,
        start: Seq<char>,
        location: Seq<char>,
        home: Option<Seq<char>>,
        visitor: Option<Seq<char>>,
    },
    Ignored,
}

/// The identifier that a team reference names.
pub open spec fn referenced(team: Option<TeamData>) -> Option<Seq<char>> {
    match team {
        Some(TeamData { data: Some(data) }) => Some(data.id@),
        _ => None,
    }
}

impl View for Included {
    type V = Record;

    open spec fn view(&self) -> Record {
        match *self {
            Included::ScheduledGames { id, attributes, relationships } => Record::Game {
                id: id@,
                start: attributes.scheduled_start_time@,
                location: attributes.location@,
                home: referenced(relationships.home_team),
                visitor: referenced(relationships.visitor_team),
            },
            Included::Teams { id, attributes } => Record::Team { id: id@, title: attributes.title@ },
            Included::Ignored => Record::Ignored,
        }
    }
}

/// A list of records as plain values.
pub open spec fn records_of(included: Seq<Included>) -> Seq<Record> {
    included.map_values(|record: Included| record@)
}

impl GameRelationships {
    /// The identifier of the home team, where the feed names one.
    pub fn home_id(&self) -> (id: Option<&String>)
        ensures
            id.is_some() == referenced(self.home_team).is_some(),
            id matches Some(name) ==> referenced(self.home_team) == Some(name@),
    {
        team_id(&self.home_team)
    }

    /// The identifier of the visiting team, where the feed names one.
    pub fn visitor_id(&self) -> (id: Option<&String>)
        ensures
            id.is_some() == referenced(self.visitor_team).is_some(),
            id matches Some(name) ==> referenced(self.visitor_team) == Some(name@),
    {
        team_id(&self.visitor_team)
    }
}

/// The identifier that a team reference names, where it names one.
pub fn team_id(team: &Option<TeamData>) -> (id: Option<&String>)
    ensures
        id.is_some() == referenced(*team).is_some(),
        id matches Some(name) ==> referenced(*team) == Some(name@),
{
    match team {
        Some(reference) => match &reference.data {
            Some(data) => Some(&data.id),
            None => None,
        },
        None => None,
    }
}

} // verus!
