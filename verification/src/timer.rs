use vstd::prelude::*;

verus! {

/// Timers the simulation hands out stay far below this duration; keeping
/// durations and tick deltas under it keeps every elapsed-time sum inside
/// `u64`.
pub const MAX_TIMER_MS: u64 = 1_000_000_000;

/// Whether a timer stops at its duration or wraps around and fires again.
#[derive(Clone, Copy, PartialEq, Eq, Structural, Debug)]
pub enum TimerMode {
    Once,
    Repeating,
}

/// A countdown driven by the fixed tick, in whole milliseconds.  This is the
/// integer model of the host engine's stopwatch timers: `tick` advances the
/// elapsed time and reports whether the timer crossed its duration during
/// that very tick.
#[derive(Clone, Copy, PartialEq, Eq, Structural, Debug)]
pub struct Timer {
    pub duration_ms: u64,
    pub elapsed_ms: u64,
    pub mode: TimerMode,
}

impl Timer {
    /// A timer never holds more elapsed time than its duration, and a
    /// repeating timer always has somewhere to wrap to.
    pub open spec fn wf(self) -> bool {
        match self.mode {
            TimerMode::Once => self.elapsed_ms <= self.duration_ms,
            TimerMode::Repeating => 0 < self.duration_ms && self.elapsed_ms < self.duration_ms,
        }
    }

    /// A once timer is finished when it has reached its duration.
    pub open spec fn spec_finished(self) -> bool {
        self.elapsed_ms == self.duration_ms
    }

    /// The timer after `delta` more milliseconds have passed.
    pub open spec fn spec_tick(self, delta: int) -> Timer {
        match self.mode {
            TimerMode::Once => Timer {
                elapsed_ms: if self.elapsed_ms + delta >= self.duration_ms {
                    self.duration_ms
                } else {
                    (self.elapsed_ms + delta) as u64
                },
                ..self
            },
            TimerMode::Repeating => Timer {
                elapsed_ms: ((self.elapsed_ms + delta) % (self.duration_ms as int)) as u64,
                ..self
            },
        }
    }

    /// Whether a tick of `delta` milliseconds makes the timer cross its
    /// duration during that very tick.
    pub open spec fn spec_just_finished(self, delta: int) -> bool {
        match self.mode {
            TimerMode::Once => self.elapsed_ms < self.duration_ms && self.elapsed_ms + delta
                >= self.duration_ms,
            TimerMode::Repeating => self.elapsed_ms + delta >= self.duration_ms,
        }
    }

    /// A fresh, unelapsed timer.  A once timer of duration zero is born
    /// finished and never reports a finishing tick.
    pub fn from_millis(duration_ms: u64, mode: TimerMode) -> (t: Timer)
        requires
            mode == TimerMode::Repeating ==> duration_ms > 0,
        ensures
            t == (Timer { duration_ms, elapsed_ms: 0, mode }),
            t.wf(),
    {
        Timer { duration_ms, elapsed_ms: 0, mode }
    }

    /// Advance the timer by `delta_ms` and report whether it finished during
    /// this tick.
    pub fn tick(&mut self, delta_ms: u64) -> (just_finished: bool)
        requires
            old(self).wf(),
            old(self).elapsed_ms + delta_ms <= u64::MAX,
        ensures
            *final(self) == old(self).spec_tick(delta_ms as int),
            just_finished == old(self).spec_just_finished(delta_ms as int),
            final(self).wf(),
    {
        let total = self.elapsed_ms + delta_ms;
        match self.mode {
            TimerMode::Once => {
                let was_unfinished = self.elapsed_ms < self.duration_ms;
                if total >= self.duration_ms {
                    self.elapsed_ms = self.duration_ms;
                    was_unfinished
                } else {
                    self.elapsed_ms = total;
                    false
                }
            },
            TimerMode::Repeating => {
                let crossed = total >= self.duration_ms;
                self.elapsed_ms = total % self.duration_ms;
                crossed
            },
        }
    }

    /// Milliseconds left until a once timer finishes.
    pub fn remaining_ms(&self) -> (r: u64)
        requires
            self.wf(),
        ensures
            r == self.duration_ms - self.elapsed_ms,
    {
        self.duration_ms - self.elapsed_ms
    }
}

} // verus!
