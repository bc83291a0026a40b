//! The directory of teams: from a team's identifier to the name it shows.

use crate::models::{records_of, Included, Record};
use vstd::prelude::*;

verus! {

/// A team of the league.
#[derive(Debug)]
pub struct Team {
    pub id: String,
    pub title: String,
}

/// The titles that a list of teams gives to identifiers. Where an identifier
/// comes twice, the later team has it.
pub open spec fn titles_of(teams: Seq<Team>) -> Map<Seq<char>, Seq<char>>
    decreases teams.len(),
{
    if teams.len() == 0 {
        Map::empty()
    } else {
        titles_of(teams.drop_last()).insert(teams.last().id@, teams.last().title@)
    }
}

/// The titles that the team records of a feed give to identifiers. Records of
/// other kinds add nothing; of two team records with one identifier the later
/// one counts.
pub open spec fn team_titles(records: Seq<Record>) -> Map<Seq<char>, Seq<char>>
    decreases records.len(),
{
    if records.len() == 0 {
        Map::empty()
    } else {
        let before = team_titles(records.drop_last());
        match records.last() {
            Record::Team { id, title } => before.insert(id, title),
            _ => before,
        }
    }
}

/// A map from team identifiers to titles.
#[derive(Debug)]
pub struct TeamDirectory {
    teams: Vec<Team>,
}

impl View for TeamDirectory {
    type V = Map<Seq<char>, Seq<char>>;

    closed spec fn view(&self) -> Map<Seq<char>, Seq<char>> {
        titles_of(self.teams@)
    }
}

impl TeamDirectory {
    /// A directory without teams.
    pub fn new() -> (directory: TeamDirectory)
        ensures
            directory@ == Map::<Seq<char>, Seq<char>>::empty(),
    {
        TeamDirectory { teams: Vec::new() }
    }

    /// Gives `id` the title `title`, in place of the one it had.
    pub fn insert(&mut self, id: String, title: String)
        ensures
            final(self)@ == old(self)@.insert(id@, title@),
    {
        self.teams.push(Team { id, title });
        assert(self.teams@.drop_last() == old(self).teams@);
    }

    /// The title of the team `id`, where the directory knows the team.
    pub fn get(&self, id: &String) -> (found: Option<&String>)
        ensures
            found.is_some() == self@.contains_key(id@),
            found matches Some(title) ==> self@[id@] == title@,
    {
        let mut i: usize = self.teams.len();
        proof {
            assert(self.teams@.take(i as int) == self.teams@);
        }
        while i > 0
            invariant
                i <= self.teams.len(),
                titles_of(self.teams@).contains_key(id@) == titles_of(
                    self.teams@.take(i as int),
                ).contains_key(id@),
                titles_of(self.teams@).contains_key(id@) ==> titles_of(self.teams@)[id@]
                    == titles_of(self.teams@.take(i as int))[id@],
            decreases i,
        {
            i -= 1;
            proof {
                assert(self.teams@.take(i + 1).drop_last() == self.teams@.take(i as int));
            }
            if self.teams[i].id == *id {
                return Some(&self.teams[i].title);
            }
        }
        None
    }

    /// The directory that the team records of a feed make up.
    pub fn from_records(records: &Vec<Included>) -> (directory: TeamDirectory)
        ensures
            directory@ == team_titles(records_of(records@)),
    {
        let mut directory = TeamDirectory::new();
        let mut i: usize = 0;
        while i < records.len()
            invariant
                i <= records.len(),
                directory@ == team_titles(records_of(records@).take(i as int)),
            decreases records.len() - i,
        {
            proof {
                assert(records_of(records@).take(i + 1).drop_last() == records_of(records@).take(
                    i as int,
                ));
            }
            match &records[i] {
                Included::Teams { id, attributes } => {
                    directory.insert(id.clone(), attributes.title.clone());
                },
                _ => {},
            }
            i += 1;
        }
        proof {
            assert(records_of(records@).take(i as int) == records_of(records@));
        }
        directory
    }
}

} // verus!
