//! The match itself: two competitors, their score sheet and the timer.
//!
//! A match is not started when it is made, in progress while the timer runs,
//! paused while the timer is stopped with time left, and complete once the
//! time is used up or a winner is on the sheet. Scoring is accepted in every
//! one of these states.

use crate::roster::{Competitor, CompetitorView};
use crate::score::{CompetitorNumber, MatchScore, Points, WinMethod};
use crate::timer::{MatchTimer, TimerState, DEFAULT_DURATION_SECONDS};
use vstd::prelude::*;

verus! {

/// What a match holds, apart from the timer's clock reading.
pub struct MatchView {
    pub competitor_one: CompetitorView,
    pub competitor_two: CompetitorView,
    pub score: MatchScore,
    pub timer: TimerState,
}

impl MatchView {
    /// Whether the match is over when the timer's open interval has lasted
    /// `live_ms`: the time is used up, or a winner is on the sheet.
    pub open spec fn complete_after(self, live_ms: nat) -> bool {
        self.timer.complete_after(live_ms) || self.score.decided()
    }

    /// The match as text, when the timer's open interval has lasted
    /// `live_ms`: one line for each competitor, with the full name and the
    /// tally, then one line with the milliseconds left.
    pub open spec fn text_after(self, live_ms: nat) -> Seq<char> {
        self.competitor_one.name() + ": "@ + self.score.competitor_one.text() + "\n"@
            + self.competitor_two.name() + ": "@ + self.score.competitor_two.text() + "\n"@
            + self.timer.text_after(live_ms) + "\n"@
    }
}

/// One match.
pub struct Match {
    competitor_one: Competitor,
    competitor_two: Competitor,
    score: MatchScore,
    timer: MatchTimer,
}

impl View for Match {
    type V = MatchView;

    closed spec fn view(&self) -> MatchView {
        MatchView {
            competitor_one: self.competitor_one@,
            competitor_two: self.competitor_two@,
            score: self.score,
            timer: self.timer@,
        }
    }
}

impl Match {
    /// A match of the default length that has not started: the timer is
    /// stopped, both tallies are at zero and there is no winner.
    pub fn new(competitor_one: Competitor, competitor_two: Competitor) -> (bout: Match)
        ensures
            bout@ == (MatchView {
                competitor_one: competitor_one@,
                competitor_two: competitor_two@,
                score: MatchScore::blank(),
                timer: TimerState::fresh(DEFAULT_DURATION_SECONDS as nat),
            }),
    {
        Match::with_duration(competitor_one, competitor_two, DEFAULT_DURATION_SECONDS)
    }

    /// A match of `duration_seconds` that has not started.
    pub fn with_duration(
        competitor_one: Competitor,
        competitor_two: Competitor,
        duration_seconds: u32,
    ) -> (bout: Match)
        ensures
            bout@ == (MatchView {
                competitor_one: competitor_one@,
                competitor_two: competitor_two@,
                score: MatchScore::blank(),
                timer: TimerState::fresh(duration_seconds as nat),
            }),
    {
        Match {
            competitor_one,
            competitor_two,
            score: MatchScore::default(),
            timer: MatchTimer::with_duration(duration_seconds),
        }
    }

    /// The first competitor.
    pub fn competitor_one(&self) -> (competitor: &Competitor)
        ensures
            competitor@ == self@.competitor_one,
    {
        &self.competitor_one
    }

    /// The second competitor.
    pub fn competitor_two(&self) -> (competitor: &Competitor)
        ensures
            competitor@ == self@.competitor_two,
    {
        &self.competitor_two
    }

    /// The score sheet.
    pub fn score(&self) -> (score: &MatchScore)
        ensures
            *score == self@.score,
    {
        &self.score
    }

    /// The timer.
    pub fn timer(&self) -> (timer: &MatchTimer)
        ensures
            timer@ == self@.timer,
    {
        &self.timer
    }

    /// Starts the timer, or lets it run on. Competitors and score stay.
    pub fn start(&mut self)
        ensures
            final(self)@ == (MatchView { timer: old(self)@.timer.started(), ..old(self)@ }),
    {
        self.timer.start();
    }

    /// Stops the timer, counting the open interval as `live_ms` long.
    /// Competitors and score stay.
    pub fn stop_after(&mut self, live_ms: u128)
        ensures
            final(self)@ == (MatchView {
                timer: old(self)@.timer.stopped_after(live_ms as nat),
                ..old(self)@
            }),
    {
        self.timer.stop_after(live_ms);
    }

    /// Stops the timer by the clock. Competitors and score stay, and a match
    /// whose timer was stopped already is left as it is.
    pub fn stop(&mut self)
        ensures
            exists|live_ms: nat|
                final(self)@ == (MatchView {
                    timer: #[trigger] old(self)@.timer.stopped_after(live_ms),
                    ..old(self)@
                }),
            !old(self)@.timer.running ==> final(self)@ == old(self)@,
            !final(self)@.timer.running,
    {
        let ghost before: MatchView = self@;
        self.timer.stop();
        proof {
            let live: nat = choose|live_ms: nat|
                self.timer@ == #[trigger] before.timer.stopped_after(live_ms);
            assert(self@ == (MatchView { timer: before.timer.stopped_after(live), ..before }));
        }
    }

    /// Whether the match is over when the timer's open interval, if there is
    /// one, has lasted `live_ms`.
    pub fn is_complete_after(&self, live_ms: u128) -> (complete: bool)
        ensures
            complete == self@.complete_after(live_ms as nat),
    {
        self.timer.is_complete_after(live_ms) || self.score.is_winner()
    }

    /// Whether the match is over by the clock: the time is used up, or a
    /// winner is on the sheet.
    pub fn is_complete(&self) -> (complete: bool)
        ensures
            exists|live_ms: nat| complete == #[trigger] self@.complete_after(live_ms),
            !self@.timer.running ==> complete == self@.complete_after(0),
            self@.complete_after(0) ==> complete,
    {
        let live: u128 = self.timer.running_for();
        let complete: bool = self.is_complete_after(live);
        assert(complete == self@.complete_after(live as nat));
        complete
    }

    /// Adds `points` to the tally of `competitor`, whatever state the match is
    /// in. Everything else stays.
    pub fn add_score(&mut self, points: Points, competitor: CompetitorNumber)
        ensures
            final(self)@ == (MatchView {
                score: old(self)@.score.plus(points, competitor),
                ..old(self)@
            }),
    {
        self.score.add(points, competitor);
    }

    /// Takes `points` away from the tally of `competitor`, whatever state the
    /// match is in. Everything else stays.
    pub fn remove_score(&mut self, points: Points, competitor: CompetitorNumber)
        ensures
            final(self)@ == (MatchView {
                score: old(self)@.score.minus(points, competitor),
                ..old(self)@
            }),
    {
        self.score.subtract(points, competitor);
    }

    /// Puts a winner on the sheet. Everything else stays.
    pub fn set_winner(&mut self, competitor: CompetitorNumber, method: WinMethod)
        ensures
            final(self)@ == (MatchView {
                score: MatchScore { winner: Some((competitor, method)), ..old(self)@.score },
                ..old(self)@
            }),
    {
        self.score.set_winner(competitor, method);
    }

    /// Takes the winner off the sheet. Everything else stays.
    pub fn clear_winner(&mut self)
        ensures
            final(self)@ == (MatchView {
                score: MatchScore { winner: None, ..old(self)@.score },
                ..old(self)@
            }),
    {
        self.score.clear_winner();
    }

    /// The match as text, when the timer's open interval, if there is one,
    /// has lasted `live_ms`.
    pub fn to_text_after(&self, live_ms: u128) -> (text: String)
        ensures
            text@ == self@.text_after(live_ms as nat),
    {
        let mut text: String = self.competitor_one.name();
        text.append(": ");
        text.append(self.score.competitor_one.to_text().as_str());
        text.append("\n");
        text.append(self.competitor_two.name().as_str());
        text.append(": ");
        text.append(self.score.competitor_two.to_text().as_str());
        text.append("\n");
        text.append(self.timer.to_text_after(live_ms).as_str());
        text.append("\n");
        text
    }

    /// The match as text, with the time left by the clock.
    pub fn to_text(&self) -> (text: String)
        ensures
            exists|live_ms: nat| text@ == #[trigger] self@.text_after(live_ms),
            !self@.timer.running ==> text@ == self@.text_after(0),
    {
        let live: u128 = self.timer.running_for();
        let text: String = self.to_text_after(live);
        assert(text@ == self@.text_after(live as nat));
        text
    }
}

} // verus!
