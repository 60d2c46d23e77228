//! Who takes part in a match: competitors and their teams.

use vstd::prelude::*;

verus! {

/// What a team holds, as plain text.
pub struct TeamView {
    pub name: Seq<char>,
    pub logo: Seq<char>,
}

/// A team. It does not change once it is made.
#[derive(Debug)]
pub struct Team {
    name: String,
    logo: String,
}

impl View for Team {
    type V = TeamView;

    closed spec fn view(&self) -> TeamView {
        TeamView { name: self.name@, logo: self.logo@ }
    }
}

impl Clone for Team {
    /// A team of its own with the same name and logo.
    fn clone(&self) -> (copy: Team)
        ensures
            copy@ == self@,
    {
        Team { name: self.name.clone(), logo: self.logo.clone() }
    }
}

impl Team {
    /// A team of the given name, with no logo set.
    pub fn new(name: &str) -> (team: Team)
        ensures
            team@ == (TeamView { name: name@, logo: Seq::empty() }),
    {
        Team { name: String::from_str(name), logo: String::new() }
    }

    /// The team's name.
    pub fn name(&self) -> (name: &str)
        ensures
            name@ == self@.name,
    {
        self.name.as_str()
    }

    /// The team's logo; empty where none is set.
    pub fn logo(&self) -> (logo: &str)
        ensures
            logo@ == self@.logo,
    {
        self.logo.as_str()
    }
}

/// What a competitor holds, as plain text.
pub struct CompetitorView {
    pub first_name: Seq<char>,
    pub last_name: Seq<char>,
    pub team: TeamView,
    pub flag: Seq<char>,
}

/// One of the two sides of a match. It holds a team of its own.
#[derive(Debug)]
pub struct Competitor {
    pub first_name: String,
    pub last_name: String,
    pub team: Team,
    pub flag: String,
}

impl View for Competitor {
    type V = CompetitorView;

    open spec fn view(&self) -> CompetitorView {
        CompetitorView {
            first_name: self.first_name@,
            last_name: self.last_name@,
            team: self.team@,
            flag: self.flag@,
        }
    }
}

impl CompetitorView {
    /// The full name: first name, one space, last name.
    pub open spec fn name(self) -> Seq<char> {
        self.first_name + seq![' '] + self.last_name
    }
}

impl Competitor {
    /// A competitor of the given names with a copy of `team`, and no flag set.
    pub fn new(first_name: &str, last_name: &str, team: &Team) -> (competitor: Competitor)
        ensures
            competitor@ == (CompetitorView {
                first_name: first_name@,
                last_name: last_name@,
                team: team@,
                flag: Seq::empty(),
            }),
    {
        Competitor {
            first_name: String::from_str(first_name),
            last_name: String::from_str(last_name),
            team: team.clone(),
            flag: String::new(),
        }
    }

    /// The full name: first name, one space, last name.
    pub fn name(&self) -> (name: String)
        ensures
            name@ == self@.name(),
    {
        proof {
            reveal_strlit(" ");
        }
        let mut name: String = self.first_name.clone();
        name.append(" ");
        name.append(self.last_name.as_str());
        assert(name@ =~= self@.name());
        name
    }
}

} // verus!
