//! The pausable countdown timer of a match.
//!
//! The timer never ticks by itself. It keeps the milliseconds used up by the
//! running intervals that have been closed, and the clock reading that opened
//! the current one; the time left is computed when it is asked for.

use crate::render::{decimal, decimal_text};
use std::time::Instant;
use vstd::prelude::*;

verus! {

/// The match length that a timer gets when none is given, in seconds.
pub const DEFAULT_DURATION_SECONDS: u32 = 300;

/// What a timer holds, apart from the clock reading itself.
pub struct TimerState {
    /// Whether a running interval is open.
    pub running: bool,
    /// The configured match length.
    pub duration_seconds: nat,
    /// The milliseconds of all closed running intervals.
    pub elapsed_milliseconds: nat,
}

/// `a - b`, or zero where `b` is the larger.
pub open spec fn floor_sub(a: nat, b: nat) -> nat {
    if a >= b {
        (a - b) as nat
    } else {
        0
    }
}

/// `a + b`, or the largest `u128` where the sum is beyond it.
pub open spec fn capped_sum(a: nat, b: nat) -> nat {
    if a + b > u128::MAX {
        u128::MAX as nat
    } else {
        a + b
    }
}

impl TimerState {
    /// The state of a timer that was just made for a match of the given length.
    pub open spec fn fresh(duration_seconds: nat) -> TimerState {
        TimerState { running: false, duration_seconds, elapsed_milliseconds: 0 }
    }

    /// Whether the numbers are ones that a timer can hold.
    pub open spec fn valid(self) -> bool {
        self.duration_seconds <= u32::MAX && self.elapsed_milliseconds <= u128::MAX
    }

    /// The match length in milliseconds.
    pub open spec fn budget(self) -> nat {
        self.duration_seconds * 1000
    }

    /// The milliseconds that the closed intervals count for: their whole
    /// seconds only.
    pub open spec fn counted(self) -> nat {
        (self.elapsed_milliseconds / 1000 * 1000) as nat
    }

    /// The milliseconds of the open interval that count, when it has lasted
    /// `live_ms`: none while the timer is stopped.
    pub open spec fn live(self, live_ms: nat) -> nat {
        if self.running {
            live_ms
        } else {
            0
        }
    }

    /// The milliseconds left when the open interval, if there is one, has
    /// lasted `live_ms`.
    pub open spec fn remaining_after(self, live_ms: nat) -> nat {
        floor_sub(floor_sub(self.budget(), self.counted()), self.live(live_ms))
    }

    /// Whether the time is used up when the open interval has lasted `live_ms`.
    pub open spec fn complete_after(self, live_ms: nat) -> bool {
        self.remaining_after(live_ms) == 0
    }

    /// The time left as text, when the open interval has lasted `live_ms`:
    /// the milliseconds as a decimal number.
    pub open spec fn text_after(self, live_ms: nat) -> Seq<char> {
        decimal(self.remaining_after(live_ms))
    }

    /// The state after `start`.
    pub open spec fn started(self) -> TimerState {
        TimerState { running: true, ..self }
    }

    /// The state after `stop`, when the open interval, if there is one, has
    /// lasted `live_ms`.
    pub open spec fn stopped_after(self, live_ms: nat) -> TimerState {
        if self.running {
            TimerState {
                running: false,
                elapsed_milliseconds: capped_sum(self.elapsed_milliseconds, live_ms),
                ..self
            }
        } else {
            self
        }
    }
}

/// A pausable countdown timer.
pub struct MatchTimer {
    running: bool,
    last_running_at: Option<Instant>,
    duration_seconds: u32,
    elapsed_milliseconds: u128,
}

impl View for MatchTimer {
    type V = TimerState;

    closed spec fn view(&self) -> TimerState {
        TimerState {
            running: self.running,
            duration_seconds: self.duration_seconds as nat,
            elapsed_milliseconds: self.elapsed_milliseconds as nat,
        }
    }
}

impl Default for MatchTimer {
    /// A stopped timer of the default length with nothing used up.
    fn default() -> (timer: MatchTimer)
        ensures
            timer@ == TimerState::fresh(DEFAULT_DURATION_SECONDS as nat),
    {
        MatchTimer::with_duration(DEFAULT_DURATION_SECONDS)
    }
}

impl MatchTimer {
    /// A running interval is open exactly when its opening clock reading is
    /// held.
    #[verifier::type_invariant]
    spec fn marker_matches_running(self) -> bool {
        self.running == self.last_running_at.is_some()
    }

    /// What a timer holds is always valid.
    pub proof fn view_is_valid(&self)
        ensures
            self@.valid(),
    {
    }

    /// A stopped timer for a match of `duration_seconds`, with nothing used up.
    pub fn with_duration(duration_seconds: u32) -> (timer: MatchTimer)
        ensures
            timer@ == TimerState::fresh(duration_seconds as nat),
    {
        MatchTimer {
            running: false,
            last_running_at: None,
            duration_seconds,
            elapsed_milliseconds: 0,
        }
    }

    /// Whether a running interval is open.
    pub fn is_running(&self) -> (running: bool)
        ensures
            running == self@.running,
    {
        self.running
    }

    /// The configured match length in seconds.
    pub fn duration_seconds(&self) -> (seconds: u32)
        ensures
            seconds == self@.duration_seconds,
    {
        self.duration_seconds
    }

    /// The milliseconds of all closed running intervals.
    pub fn elapsed_milliseconds(&self) -> (millis: u128)
        ensures
            millis == self@.elapsed_milliseconds,
    {
        self.elapsed_milliseconds
    }

    /// How long the open interval has lasted by the clock, in milliseconds;
    /// zero while the timer is stopped.
    pub fn running_for(&self) -> (millis: u128)
        ensures
            !self@.running ==> millis == 0,
    {
        proof {
            use_type_invariant(self);
        }
        match self.last_running_at {
            Some(mark) => mark.elapsed().as_millis(),
            None => 0,
        }
    }

    /// The milliseconds left when the open interval, if there is one, has
    /// lasted `live_ms`.
    pub fn remaining_after(&self, live_ms: u128) -> (millis: u128)
        ensures
            millis == self@.remaining_after(live_ms as nat),
    {
        let live: u128 = if self.running {
            live_ms
        } else {
            0
        };
        let budget: u128 = (self.duration_seconds as u128) * 1000;
        let counted: u128 = self.elapsed_milliseconds / 1000 * 1000;
        budget.saturating_sub(counted).saturating_sub(live)
    }

    /// The milliseconds left by the clock. For a stopped timer the clock does
    /// not matter; for a running one the result is what `remaining_after`
    /// gives for the length of the open interval that the clock reported.
    pub fn remaining(&self) -> (millis: u128)
        ensures
            exists|live_ms: nat| millis == #[trigger] self@.remaining_after(live_ms),
            !self@.running ==> millis == self@.remaining_after(0),
            millis <= self@.remaining_after(0),
    {
        let live: u128 = self.running_for();
        let millis: u128 = self.remaining_after(live);
        assert(millis == self@.remaining_after(live as nat));
        millis
    }

    /// Whether the time is used up when the open interval, if there is one,
    /// has lasted `live_ms`.
    pub fn is_complete_after(&self, live_ms: u128) -> (complete: bool)
        ensures
            complete == self@.complete_after(live_ms as nat),
    {
        self.remaining_after(live_ms) == 0
    }

    /// Whether the time is used up by the clock.
    pub fn is_complete(&self) -> (complete: bool)
        ensures
            exists|live_ms: nat| complete == #[trigger] self@.complete_after(live_ms),
            !self@.running ==> complete == self@.complete_after(0),
            self@.complete_after(0) ==> complete,
    {
        let live: u128 = self.running_for();
        let complete: bool = self.is_complete_after(live);
        assert(complete == self@.complete_after(live as nat));
        complete
    }

    /// The time left as text, when the open interval, if there is one, has
    /// lasted `live_ms`.
    pub fn to_text_after(&self, live_ms: u128) -> (text: String)
        ensures
            text@ == self@.text_after(live_ms as nat),
    {
        decimal_text(self.remaining_after(live_ms))
    }

    /// The time left by the clock, as text.
    pub fn to_text(&self) -> (text: String)
        ensures
            exists|live_ms: nat| text@ == #[trigger] self@.text_after(live_ms),
            !self@.running ==> text@ == self@.text_after(0),
    {
        let live: u128 = self.running_for();
        let text: String = self.to_text_after(live);
        assert(text@ == self@.text_after(live as nat));
        text
    }

    /// Opens a running interval at the present clock reading. A timer that is
    /// already running is left as it is, so that the open interval keeps its
    /// length.
    pub fn start(&mut self)
        ensures
            final(self)@ == old(self)@.started(),
            old(self)@.running ==> *final(self) == *old(self),
    {
        if !self.running {
            let mark: Instant = Instant::now();
            *self = MatchTimer {
                running: true,
                last_running_at: Some(mark),
                duration_seconds: self.duration_seconds,
                elapsed_milliseconds: self.elapsed_milliseconds,
            };
        }
    }

    /// Closes the open interval, counting it as `live_ms` long. The sum of
    /// the closed intervals stops at the largest `u128`. A stopped timer is
    /// left as it is.
    pub fn stop_after(&mut self, live_ms: u128)
        ensures
            final(self)@ == old(self)@.stopped_after(live_ms as nat),
            !old(self)@.running ==> *final(self) == *old(self),
    {
        if self.running {
            *self = MatchTimer {
                running: false,
                last_running_at: None,
                duration_seconds: self.duration_seconds,
                elapsed_milliseconds: self.elapsed_milliseconds.saturating_add(live_ms),
            };
        }
    }

    /// Closes the open interval with the length that the clock reports. A
    /// stopped timer is left as it is.
    pub fn stop(&mut self)
        ensures
            exists|live_ms: nat| final(self)@ == #[trigger] old(self)@.stopped_after(live_ms),
            !old(self)@.running ==> *final(self) == *old(self),
            !final(self)@.running,
            final(self)@.duration_seconds == old(self)@.duration_seconds,
            final(self)@.elapsed_milliseconds >= old(self)@.elapsed_milliseconds,
    {
        let live: u128 = self.running_for();
        self.stop_after(live);
        assert(final(self)@ == old(self)@.stopped_after(live as nat));
    }
}

} // verus!
