//! Countdown timers advanced by the elapsed time of each frame.

use vstd::prelude::*;

verus! {

/// What a timer does once its duration has passed.
#[derive(Clone, Copy, Debug, PartialEq, Eq, Structural)]
pub enum TimerMode {
    /// Stay finished until reset.
    Once,
    /// Start over, keeping the time that ran past the duration.
    Repeating,
}

/// A timer over whole microseconds.
///
/// A timer that runs once counts up to its duration and stays there. A
/// repeating timer is finished only on the ticks on which its duration is
/// reached or passed, and carries the remainder into the next round.
#[derive(Clone, Copy, Debug, PartialEq, Eq, Structural)]
pub struct Timer {
    pub duration: u64,
    pub elapsed: u64,
    pub mode: TimerMode,
    pub finished: bool,
    pub times_finished_this_tick: u32,
}

/// `a + b`, stopping at the largest `u64`.
pub open spec fn saturating_sum(a: u64, b: u64) -> u64 {
    if a + b > u64::MAX {
        u64::MAX
    } else {
        (a + b) as u64
    }
}

impl Timer {
    /// The timer as it is after `delta` more microseconds.
    pub open spec fn ticked(self, delta: u64) -> Timer {
        let total = saturating_sum(self.elapsed, delta);
        if self.mode == TimerMode::Once && self.finished {
            Timer { times_finished_this_tick: 0, ..self }
        } else if total < self.duration {
            Timer { elapsed: total, finished: false, times_finished_this_tick: 0, ..self }
        } else if self.mode == TimerMode::Once {
            Timer { elapsed: self.duration, finished: true, times_finished_this_tick: 1, ..self }
        } else if self.duration == 0 {
            Timer { elapsed: 0, finished: true, times_finished_this_tick: u32::MAX, ..self }
        } else {
            Timer {
                elapsed: (total % self.duration) as u64,
                finished: true,
                times_finished_this_tick: ((total / self.duration) % 0x1_0000_0000) as u32,
                ..self
            }
        }
    }

    /// A timer of `duration` microseconds that has not run yet.
    pub open spec fn fresh(duration: u64, mode: TimerMode) -> Timer {
        Timer { duration, elapsed: 0, mode, finished: false, times_finished_this_tick: 0 }
    }

    /// A fresh timer of `duration` microseconds.
    pub fn new(duration: u64, mode: TimerMode) -> (t: Timer)
        ensures
            t == Timer::fresh(duration, mode),
    {
        Timer { duration, elapsed: 0, mode, finished: false, times_finished_this_tick: 0 }
    }

    /// Advances the timer by `delta` microseconds.
    pub fn tick(&mut self, delta: u64)
        ensures
            *final(self) == old(self).ticked(delta),
    {
        if self.mode == TimerMode::Once && self.finished {
            self.times_finished_this_tick = 0;
            return;
        }
        let total: u64 = match self.elapsed.checked_add(delta) {
            Some(t) => t,
            None => u64::MAX,
        };
        if total < self.duration {
            self.elapsed = total;
            self.finished = false;
            self.times_finished_this_tick = 0;
        } else if self.mode == TimerMode::Once {
            self.elapsed = self.duration;
            self.finished = true;
            self.times_finished_this_tick = 1;
        } else if self.duration == 0 {
            self.elapsed = 0;
            self.finished = true;
            self.times_finished_this_tick = u32::MAX;
        } else {
            self.elapsed = total % self.duration;
            self.finished = true;
            self.times_finished_this_tick = ((total / self.duration) % 0x1_0000_0000) as u32;
        }
    }

    /// Whether the duration was reached on the latest tick (for a timer that
    /// runs once: on that tick or earlier).
    pub fn finished(&self) -> (b: bool)
        ensures
            b == self.finished,
    {
        self.finished
    }

    /// Whether the duration was reached on the latest tick itself.
    pub fn just_finished(&self) -> (b: bool)
        ensures
            b == (self.times_finished_this_tick > 0),
    {
        self.times_finished_this_tick > 0
    }

    /// How often a repeating timer ran out during the latest tick.
    pub fn times_finished_this_tick(&self) -> (n: u32)
        ensures
            n == self.times_finished_this_tick,
    {
        self.times_finished_this_tick
    }
}

/// A repeating timer of positive duration never holds a full round after a
/// tick, and the time it was given is all accounted for: rounds completed
/// times the duration, plus what is left on the clock.
pub proof fn lemma_repeating_tick_conserves_time(t: Timer, delta: u64)
    requires
        t.mode == TimerMode::Repeating,
        t.duration > 0,
    ensures
        t.ticked(delta).elapsed < t.duration,
        t.ticked(delta).finished == (saturating_sum(t.elapsed, delta) >= t.duration),
        t.elapsed + delta <= u64::MAX && t.elapsed + delta < t.duration * 0x1_0000_0000
            ==> t.ticked(delta).times_finished_this_tick * t.duration + t.ticked(delta).elapsed
            == t.elapsed + delta,
{
    let total = saturating_sum(t.elapsed, delta) as int;
    let d = t.duration as int;
    vstd::arithmetic::div_mod::lemma_fundamental_div_mod(total, d);
    vstd::arithmetic::div_mod::lemma_mod_bound(total, d);
    if t.elapsed + delta <= u64::MAX && t.elapsed + delta < t.duration * 0x1_0000_0000 {
        if total >= d {
            assert(total / d < 0x1_0000_0000) by (nonlinear_arith)
                requires
                    0 <= total < d * 0x1_0000_0000,
                    d > 0,
            ;
            assert(total / d >= 0) by (nonlinear_arith)
                requires
                    0 <= total,
                    d > 0,
            ;
            assert(d * (total / d) == (total / d) * d) by (nonlinear_arith);
        }
    }
}

} // verus!
