//! What holds of the timer over time.
//!
//! The timer itself only sees clock readings. Here the clock is made
//! explicit: a clocked timer is a timer state together with the length that
//! its open interval has reached, and it moves by steps: a start, a stop, or
//! a wait of some milliseconds.

use crate::timer::{floor_sub, TimerState};
use vstd::prelude::*;

verus! {

/// One thing that happens to a timer.
pub enum TimerStep {
    /// `start` is called.
    Start,
    /// `stop` is called.
    Stop,
    /// The clock moves on by so many milliseconds.
    Wait(nat),
}

/// A timer state together with the clock.
pub struct Clocked {
    pub timer: TimerState,
    /// How long the open interval has lasted; it plays no part while the
    /// timer is stopped.
    pub live: nat,
}

impl Clocked {
    /// What `remaining` returns at this moment.
    pub open spec fn remaining(self) -> nat {
        self.timer.remaining_after(self.live)
    }

    /// All the milliseconds that the timer has run: the closed intervals and
    /// the open one.
    pub open spec fn spent(self) -> nat {
        self.timer.elapsed_milliseconds + self.timer.live(self.live)
    }

    /// The clocked timer after one step.
    pub open spec fn step(self, step: TimerStep) -> Clocked {
        match step {
            TimerStep::Start => if self.timer.running {
                self
            } else {
                Clocked { timer: self.timer.started(), live: 0 }
            },
            TimerStep::Stop => Clocked { timer: self.timer.stopped_after(self.live), live: 0 },
            TimerStep::Wait(millis) => if self.timer.running {
                Clocked { live: self.live + millis, ..self }
            } else {
                self
            },
        }
    }

    /// The clocked timer after the steps, taken in order.
    pub open spec fn run(self, steps: Seq<TimerStep>) -> Clocked
        decreases steps.len(),
    {
        if steps.len() == 0 {
            self
        } else {
            self.run(steps.drop_last()).step(steps.last())
        }
    }

    /// The milliseconds that one step adds to the running time: those of a
    /// wait while the timer runs.
    pub open spec fn step_running_time(self, step: TimerStep) -> nat {
        match step {
            TimerStep::Wait(millis) => if self.timer.running {
                millis
            } else {
                0
            },
            _ => 0,
        }
    }

    /// The milliseconds that the timer runs during the steps: the waits that
    /// fall between a start and the next stop.
    pub open spec fn running_time(self, steps: Seq<TimerStep>) -> nat
        decreases steps.len(),
    {
        if steps.len() == 0 {
            0
        } else {
            self.running_time(steps.drop_last()) + self.run(steps.drop_last()).step_running_time(
                steps.last(),
            )
        }
    }
}

/// The clock does not matter to a stopped timer: the time left is the same
/// however long one waits.
pub proof fn stopped_timer_ignores_the_clock(timer: TimerState, earlier: nat, later: nat)
    requires
        !timer.running,
    ensures
        timer.remaining_after(earlier) == timer.remaining_after(later),
{
}

/// While a timer runs, the time left goes down by exactly the time that
/// passes, until it reaches zero.
pub proof fn running_timer_counts_down(timer: TimerState, earlier: nat, later: nat)
    requires
        timer.running,
        earlier <= later,
    ensures
        timer.remaining_after(later) == floor_sub(
            timer.remaining_after(earlier),
            (later - earlier) as nat,
        ),
{
}

/// The time left is never more than the match length, and a timer that has
/// used nothing has all of it.
pub proof fn remaining_is_within_the_match_length(timer: TimerState, live_ms: nat)
    ensures
        timer.remaining_after(live_ms) <= timer.budget(),
        timer.elapsed_milliseconds < 1000 ==> timer.remaining_after(0) == timer.budget(),
{
}

/// Stopping a running timer leaves the time left as it was at that moment
/// exactly when the interval that is closed lasted whole seconds, or when no
/// time is left before and after. Otherwise the two differ by the fraction of
/// a second by which the closed intervals are rounded down, which is under a
/// second.
pub proof fn stop_keeps_the_time_left(timer: TimerState, live_ms: nat, later: nat)
    requires
        timer.valid(),
        timer.running,
    ensures
        (timer.stopped_after(live_ms).remaining_after(later) == timer.remaining_after(live_ms))
            <==> (live_ms % 1000 == 0 || (timer.remaining_after(live_ms) == 0
            && timer.stopped_after(live_ms).remaining_after(later) == 0)),
        timer.stopped_after(live_ms).remaining_after(later) < timer.remaining_after(live_ms) + 1000,
        timer.remaining_after(live_ms) < timer.stopped_after(live_ms).remaining_after(later) + 1000,
{
}

/// A step never gives time back once none is left.
pub proof fn step_keeps_zero(clocked: Clocked, step: TimerStep)
    requires
        clocked.timer.valid(),
        clocked.remaining() == 0,
    ensures
        clocked.step(step).timer.valid(),
        clocked.step(step).remaining() == 0,
{
}

/// Once no time is left, none is left after any further starts, stops and
/// waits.
pub proof fn zero_stays_zero(clocked: Clocked, steps: Seq<TimerStep>)
    requires
        clocked.timer.valid(),
        clocked.remaining() == 0,
    ensures
        clocked.run(steps).timer.valid(),
        clocked.run(steps).remaining() == 0,
    decreases steps.len(),
{
    if steps.len() > 0 {
        zero_stays_zero(clocked, steps.drop_last());
        step_keeps_zero(clocked.run(steps.drop_last()), steps.last());
    }
}

/// The time left never goes up by a step, apart from the fraction of a
/// second that a stop may give back.
pub proof fn step_never_adds_a_second(clocked: Clocked, step: TimerStep)
    requires
        clocked.timer.valid(),
    ensures
        clocked.step(step).remaining() < clocked.remaining() + 1000,
        !(step is Stop) ==> clocked.step(step).remaining() <= clocked.remaining(),
{
}

/// The time left is the match length less what the timer has run, where the
/// closed intervals count by their whole seconds only: exactly so when they
/// add up to whole seconds, and otherwise more by under a second.
pub proof fn remaining_is_length_less_spent(clocked: Clocked)
    requires
        clocked.timer.valid(),
    ensures
        floor_sub(clocked.timer.budget(), clocked.spent()) <= clocked.remaining(),
        clocked.remaining() <= floor_sub(clocked.timer.budget(), floor_sub(clocked.spent(), 999)),
        clocked.timer.elapsed_milliseconds % 1000 == 0 ==> clocked.remaining() == floor_sub(
            clocked.timer.budget(),
            clocked.spent(),
        ),
{
}

/// Over any starts, stops and waits, what the timer has run grows by the
/// waits that fall inside running intervals and by nothing else: time that
/// passes while the timer is stopped does not count.
pub proof fn spent_grows_by_running_time(clocked: Clocked, steps: Seq<TimerStep>)
    requires
        clocked.timer.valid(),
        clocked.spent() + clocked.running_time(steps) <= u128::MAX,
    ensures
        clocked.run(steps).timer.valid(),
        clocked.run(steps).timer.duration_seconds == clocked.timer.duration_seconds,
        clocked.run(steps).spent() == clocked.spent() + clocked.running_time(steps),
    decreases steps.len(),
{
    if steps.len() > 0 {
        spent_grows_by_running_time(clocked, steps.drop_last());
    }
}

/// Over any starts, stops and waits, the time left goes down by the running
/// time and by nothing else, until it reaches zero: exactly so when the closed
/// intervals add up to whole seconds at the start and at the end, and
/// otherwise to within the fraction of a second that they are rounded down by.
pub proof fn remaining_goes_down_by_running_time(clocked: Clocked, steps: Seq<TimerStep>)
    requires
        clocked.timer.valid(),
        clocked.spent() + clocked.running_time(steps) <= u128::MAX,
    ensures
        floor_sub(clocked.timer.budget(), clocked.spent() + clocked.running_time(steps))
            <= clocked.run(steps).remaining(),
        clocked.run(steps).remaining() <= floor_sub(
            clocked.timer.budget(),
            floor_sub(clocked.spent() + clocked.running_time(steps), 999),
        ),
        (clocked.timer.elapsed_milliseconds % 1000 == 0 && clocked.run(
            steps,
        ).timer.elapsed_milliseconds % 1000 == 0) ==> clocked.run(steps).remaining() == floor_sub(
            clocked.remaining(),
            clocked.running_time(steps),
        ),
{
    spent_grows_by_running_time(clocked, steps);
    remaining_is_length_less_spent(clocked);
    remaining_is_length_less_spent(clocked.run(steps));
}

} // verus!
