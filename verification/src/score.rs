//! The score sheet of a match: one tally per competitor, and the winner once
//! one has been declared.

use crate::render::{decimal, decimal_text};
use vstd::prelude::*;

verus! {

/// Which side of the match an operation is about.
#[derive(Clone, Copy, Debug, PartialEq, Eq, Structural)]
pub enum CompetitorNumber {
    One,
    Two,
}

/// An amount together with the counter of a tally that it goes to.
#[derive(Clone, Copy, Debug, PartialEq, Eq, Structural)]
pub enum Points {
    Points(u8),
    Advantages(u8),
    Penalties(u8),
    Medical(u8),
}

/// Why a match ended.
#[derive(Clone, Copy, Debug, PartialEq, Eq, Structural)]
pub enum WinMethod {
    Submission,
    Points,
    RefDecision,
    Disqualification,
    WalkOver,
    DoctorStoppage,
}

/// The largest number that a counter of a tally can hold.
pub open spec fn counter_max() -> nat {
    u8::MAX as nat
}

/// `value + amount`, stopping at the largest number a counter can hold.
pub open spec fn raised(value: nat, amount: nat) -> nat {
    if value + amount > counter_max() {
        counter_max()
    } else {
        value + amount
    }
}

/// `value - amount`, stopping at zero.
pub open spec fn lowered(value: nat, amount: nat) -> nat {
    if amount > value {
        0
    } else {
        (value - amount) as nat
    }
}

impl Points {
    /// The amount carried.
    pub open spec fn amount(self) -> nat {
        match self {
            Points::Points(n) => n as nat,
            Points::Advantages(n) => n as nat,
            Points::Penalties(n) => n as nat,
            Points::Medical(n) => n as nat,
        }
    }

    /// Whether both go to the same counter, whatever their amounts.
    pub open spec fn same_counter(self, other: Points) -> bool {
        match (self, other) {
            (Points::Points(_), Points::Points(_)) => true,
            (Points::Advantages(_), Points::Advantages(_)) => true,
            (Points::Penalties(_), Points::Penalties(_)) => true,
            (Points::Medical(_), Points::Medical(_)) => true,
            _ => false,
        }
    }
}

/// The tally of one competitor.
#[derive(Clone, Copy, Debug, PartialEq, Eq, Structural)]
pub struct CompetitorScore {
    pub points: u8,
    pub advantages: u8,
    pub penalties: u8,
    pub medical: u8,
}

impl Default for CompetitorScore {
    /// A tally with every counter at zero.
    fn default() -> (score: CompetitorScore)
        ensures
            score == CompetitorScore::zero(),
    {
        CompetitorScore { points: 0, advantages: 0, penalties: 0, medical: 0 }
    }
}

impl CompetitorScore {
    /// The tally with every counter at zero.
    pub open spec fn zero() -> CompetitorScore {
        CompetitorScore { points: 0, advantages: 0, penalties: 0, medical: 0 }
    }

    /// The counter that `kind` goes to; the amount that `kind` carries plays
    /// no part.
    pub open spec fn counter(self, kind: Points) -> nat {
        match kind {
            Points::Points(_) => self.points as nat,
            Points::Advantages(_) => self.advantages as nat,
            Points::Penalties(_) => self.penalties as nat,
            Points::Medical(_) => self.medical as nat,
        }
    }

    /// The tally with the counter that `kind` goes to set to `value`.
    pub open spec fn with_counter(self, kind: Points, value: u8) -> CompetitorScore {
        match kind {
            Points::Points(_) => CompetitorScore { points: value, ..self },
            Points::Advantages(_) => CompetitorScore { advantages: value, ..self },
            Points::Penalties(_) => CompetitorScore { penalties: value, ..self },
            Points::Medical(_) => CompetitorScore { medical: value, ..self },
        }
    }

    /// The tally after `points` were added: their counter is raised by their
    /// amount and stops at the largest number it can hold.
    pub open spec fn plus(self, points: Points) -> CompetitorScore {
        self.with_counter(points, raised(self.counter(points), points.amount()) as u8)
    }

    /// The tally after `points` were taken away: their counter is lowered by
    /// their amount and stops at zero.
    pub open spec fn minus(self, points: Points) -> CompetitorScore {
        self.with_counter(points, lowered(self.counter(points), points.amount()) as u8)
    }

    /// The tally as one line of text. The medical counter is not shown.
    pub open spec fn text(self) -> Seq<char> {
        "Pts: "@ + decimal(self.points as nat) + " - Adv: "@ + decimal(self.advantages as nat)
            + " - Pen: "@ + decimal(self.penalties as nat)
    }

    /// The tally as one line of text. The medical counter is not shown.
    pub fn to_text(&self) -> (text: String)
        ensures
            text@ == self.text(),
    {
        let mut text: String = String::from_str("Pts: ");
        text.append(decimal_text(self.points as u128).as_str());
        text.append(" - Adv: ");
        text.append(decimal_text(self.advantages as u128).as_str());
        text.append(" - Pen: ");
        text.append(decimal_text(self.penalties as u128).as_str());
        text
    }

    /// Adds `points` to their counter, which stops at the largest number it can
    /// hold.
    pub fn add(&mut self, points: Points)
        ensures
            *final(self) == old(self).plus(points),
    {
        match points {
            Points::Points(amount) => {
                self.points = self.points.saturating_add(amount);
            },
            Points::Advantages(amount) => {
                self.advantages = self.advantages.saturating_add(amount);
            },
            Points::Penalties(amount) => {
                self.penalties = self.penalties.saturating_add(amount);
            },
            Points::Medical(amount) => {
                self.medical = self.medical.saturating_add(amount);
            },
        }
    }

    /// Takes `points` away from their counter, which stops at zero.
    pub fn subtract(&mut self, points: Points)
        ensures
            *final(self) == old(self).minus(points),
    {
        match points {
            Points::Points(amount) => {
                self.points = self.points.saturating_sub(amount);
            },
            Points::Advantages(amount) => {
                self.advantages = self.advantages.saturating_sub(amount);
            },
            Points::Penalties(amount) => {
                self.penalties = self.penalties.saturating_sub(amount);
            },
            Points::Medical(amount) => {
                self.medical = self.medical.saturating_sub(amount);
            },
        }
    }
}

/// The score sheet of a match.
#[derive(Clone, Copy, Debug, PartialEq, Eq)]
pub struct MatchScore {
    pub competitor_one: CompetitorScore,
    pub competitor_two: CompetitorScore,
    pub winner: Option<(CompetitorNumber, WinMethod)>,
}

impl Default for MatchScore {
    /// A sheet with both tallies at zero and no winner.
    fn default() -> (score: MatchScore)
        ensures
            score == MatchScore::blank(),
    {
        MatchScore {
            competitor_one: CompetitorScore::default(),
            competitor_two: CompetitorScore::default(),
            winner: None,
        }
    }
}

impl MatchScore {
    /// The sheet with both tallies at zero and no winner.
    pub open spec fn blank() -> MatchScore {
        MatchScore {
            competitor_one: CompetitorScore::zero(),
            competitor_two: CompetitorScore::zero(),
            winner: None,
        }
    }

    /// The tally of one side.
    pub open spec fn side(self, competitor: CompetitorNumber) -> CompetitorScore {
        match competitor {
            CompetitorNumber::One => self.competitor_one,
            CompetitorNumber::Two => self.competitor_two,
        }
    }

    /// The sheet with the tally of one side replaced.
    pub open spec fn with_side(self, competitor: CompetitorNumber, tally: CompetitorScore)
        -> MatchScore {
        match competitor {
            CompetitorNumber::One => MatchScore { competitor_one: tally, ..self },
            CompetitorNumber::Two => MatchScore { competitor_two: tally, ..self },
        }
    }

    /// The sheet after `points` were added to one side.
    pub open spec fn plus(self, points: Points, competitor: CompetitorNumber) -> MatchScore {
        self.with_side(competitor, self.side(competitor).plus(points))
    }

    /// The sheet after `points` were taken away from one side.
    pub open spec fn minus(self, points: Points, competitor: CompetitorNumber) -> MatchScore {
        self.with_side(competitor, self.side(competitor).minus(points))
    }

    /// Whether a winner is on the sheet.
    pub open spec fn decided(self) -> bool {
        self.winner.is_some()
    }

    /// Adds `points` to the tally of `competitor`. The other tally and the
    /// winner stay.
    pub fn add(&mut self, points: Points, competitor: CompetitorNumber)
        ensures
            *final(self) == old(self).plus(points, competitor),
    {
        match competitor {
            CompetitorNumber::One => self.competitor_one.add(points),
            CompetitorNumber::Two => self.competitor_two.add(points),
        }
    }

    /// Takes `points` away from the tally of `competitor`. The other tally and
    /// the winner stay.
    pub fn subtract(&mut self, points: Points, competitor: CompetitorNumber)
        ensures
            *final(self) == old(self).minus(points, competitor),
    {
        match competitor {
            CompetitorNumber::One => self.competitor_one.subtract(points),
            CompetitorNumber::Two => self.competitor_two.subtract(points),
        }
    }

    /// Whether a winner is on the sheet.
    pub fn is_winner(&self) -> (decided: bool)
        ensures
            decided == self.decided(),
    {
        self.winner.is_some()
    }

    /// Puts a winner on the sheet, in place of an earlier one if there was
    /// one. The tallies stay.
    pub fn set_winner(&mut self, competitor: CompetitorNumber, method: WinMethod)
        ensures
            *final(self) == (MatchScore { winner: Some((competitor, method)), ..*old(self) }),
    {
        self.winner = Some((competitor, method));
    }

    /// Takes the winner off the sheet. The tallies stay.
    pub fn clear_winner(&mut self)
        ensures
            *final(self) == (MatchScore { winner: None, ..*old(self) }),
    {
        self.winner = None;
    }
}

} // verus!
