//! Countdown timers driven by the per-tick time delta, counting in
//! milliseconds.

use vstd::prelude::*;

use crate::MAX_TICK_MS;

verus! {

/// Whether a timer keeps firing period after period or stops at the
/// first completion.
#[derive(Clone, Copy, PartialEq, Eq, Structural, Debug)]
pub enum TimerMode {
    Once,
    Repeating,
}

/// A countdown of fixed duration, advanced by `tick`.
#[derive(Clone, Copy, PartialEq, Eq, Structural, Debug)]
pub struct Timer {
    pub elapsed_ms: u64,
    pub duration_ms: u64,
    pub mode: TimerMode,
}

impl Timer {
    /// Accumulated time never exceeds the duration, and a repeating
    /// timer holds strictly less than a full period (it wraps on
    /// completion).
    pub open spec fn inv(self) -> bool {
        &&& 0 < self.duration_ms
        &&& self.elapsed_ms <= self.duration_ms
        &&& (self.mode == TimerMode::Repeating ==> self.elapsed_ms < self.duration_ms)
    }

    /// The timer completes during a tick of `dt_ms` exactly when the
    /// accumulated time would reach its duration.
    pub open spec fn fires(self, dt_ms: int) -> bool {
        self.elapsed_ms + dt_ms >= self.duration_ms
    }

    /// Accumulated time after a tick of `dt_ms`: a repeating timer
    /// wraps around its period, a one-shot timer saturates at it.
    pub open spec fn elapsed_after(self, dt_ms: int) -> int {
        if self.mode == TimerMode::Repeating {
            (self.elapsed_ms + dt_ms) % (self.duration_ms as int)
        } else {
            if self.elapsed_ms + dt_ms <= self.duration_ms {
                self.elapsed_ms + dt_ms
            } else {
                self.duration_ms as int
            }
        }
    }

    pub fn new(duration_ms: u64, mode: TimerMode) -> (t: Timer)
        requires
            0 < duration_ms,
        ensures
            t.elapsed_ms == 0,
            t.duration_ms == duration_ms,
            t.mode == mode,
            t.inv(),
    {
        Timer { elapsed_ms: 0, duration_ms, mode }
    }

    /// Advance the timer by `dt_ms` and report whether it completed
    /// during this tick.
    pub fn tick(&mut self, dt_ms: u64) -> (fired: bool)
        requires
            old(self).inv(),
            dt_ms <= MAX_TICK_MS,
            old(self).elapsed_ms + dt_ms <= u64::MAX,
        ensures
            fired == old(self).fires(dt_ms as int),
            final(self).elapsed_ms == old(self).elapsed_after(dt_ms as int),
            final(self).duration_ms == old(self).duration_ms,
            final(self).mode == old(self).mode,
            final(self).inv(),
    {
        let sum: u64 = self.elapsed_ms + dt_ms;
        match self.mode {
            TimerMode::Repeating => {
                if sum >= self.duration_ms {
                    self.elapsed_ms = sum % self.duration_ms;
                    true
                } else {
                    proof {
                        vstd::arithmetic::div_mod::lemma_small_mod(
                            sum as nat,
                            self.duration_ms as nat,
                        );
                    }
                    self.elapsed_ms = sum;
                    false
                }
            },
            TimerMode::Once => {
                if sum >= self.duration_ms {
                    self.elapsed_ms = self.duration_ms;
                    true
                } else {
                    self.elapsed_ms = sum;
                    false
                }
            },
        }
    }
}

} // verus!
