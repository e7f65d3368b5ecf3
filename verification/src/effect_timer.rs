//! Converts elapsed time into the progress of an effect.

use crate::duration::Duration;
use crate::interpolation::Interpolation;
use vstd::prelude::*;
use vstd::std_specs::convert::FromSpecImpl;

verus! {

/// Tracks how much of an effect's lifetime is left.
///
/// A timer is well formed when `remaining` does not exceed `total`; every
/// constructor establishes this and every method keeps it.
#[derive(Clone, Copy, Debug, PartialEq, Eq, Structural)]
pub struct EffectTimer {
    pub remaining: Duration,
    pub total: Duration,
    pub interpolation: Interpolation,
    pub reverse: bool,
}

impl EffectTimer {
    /// `0 <= remaining <= total`.
    pub open spec fn wf(self) -> bool {
        self.remaining.milliseconds <= self.total.milliseconds
    }

    /// The timer as it stands after `duration` has been fed to it.
    pub open spec fn processed(self, duration: Duration) -> EffectTimer {
        EffectTimer {
            remaining: Duration {
                milliseconds: if self.remaining.milliseconds >= duration.milliseconds {
                    (self.remaining.milliseconds - duration.milliseconds) as u32
                } else {
                    0
                },
            },
            ..self
        }
    }

    /// What is left of `duration` once the timer has run out, if it runs out.
    pub open spec fn overflow(self, duration: Duration) -> Option<Duration> {
        if self.remaining.milliseconds >= duration.milliseconds {
            None
        } else {
            Some(
                Duration {
                    milliseconds: (duration.milliseconds - self.remaining.milliseconds) as u32,
                },
            )
        }
    }

    /// The timer running the other way; `total` and `remaining` are untouched.
    pub open spec fn flipped(self) -> EffectTimer {
        EffectTimer { reverse: !self.reverse, ..self }
    }

    /// The timer wound back to its full lifetime.
    pub open spec fn rewound(self) -> EffectTimer {
        EffectTimer { remaining: self.total, ..self }
    }

    pub open spec fn is_done(self) -> bool {
        self.remaining.milliseconds == 0
    }

    /// Raw progress before easing, as the exact fraction `numerator / total`:
    /// the elapsed share of the lifetime, or the remaining share when reversed.
    /// `None` stands for the zero-length timer, whose progress is complete by definition.
    pub open spec fn raw_progress(self) -> Option<(int, int)> {
        if self.total.milliseconds == 0 {
            None
        } else if self.reverse {
            Some((self.remaining.milliseconds as int, self.total.milliseconds as int))
        } else if self.remaining.milliseconds <= self.total.milliseconds {
            Some(
                (
                    self.total.milliseconds - self.remaining.milliseconds,
                    self.total.milliseconds as int,
                ),
            )
        } else {
            Some((0, self.total.milliseconds as int))
        }
    }

    /// A timer for `times` runs of this one: the lifetime multiplied, capped
    /// at the longest duration there is, and nothing consumed yet.
    pub open spec fn repeated(self, times: u32) -> EffectTimer {
        EffectTimer {
            remaining: self.total.capped_product(times),
            total: self.total.capped_product(times),
            ..self
        }
    }

    pub fn scaled(self, times: u32) -> (timer: Self)
        ensures
            timer == self.repeated(times),
            timer.wf(),
    {
        let total = self.total.saturating_mul(times);
        Self { remaining: total, total, ..self }
    }

    pub fn from_ms(duration: u32, interpolation: Interpolation) -> (timer: Self)
        ensures
            timer == (EffectTimer {
                remaining: Duration { milliseconds: duration },
                total: Duration { milliseconds: duration },
                interpolation,
                reverse: false,
            }),
            timer.wf(),
    {
        Self::new(Duration::from_millis(duration), interpolation)
    }

    pub fn new(duration: Duration, interpolation: Interpolation) -> (timer: Self)
        ensures
            timer == (EffectTimer {
                remaining: duration,
                total: duration,
                interpolation,
                reverse: false,
            }),
            timer.wf(),
    {
        Self { remaining: duration, total: duration, interpolation, reverse: false }
    }

    /// Toggles the direction without touching the declared duration.
    pub fn reversed(self) -> (timer: Self)
        ensures
            timer == self.flipped(),
            timer.wf() == self.wf(),
    {
        Self { reverse: !self.reverse, ..self }
    }

    pub fn started(&self) -> (started: bool)
        ensures
            started == (self.total != self.remaining),
    {
        self.total.milliseconds != self.remaining.milliseconds
    }

    pub fn reset(&mut self)
        ensures
            *final(self) == old(self).rewound(),
            final(self).wf(),
    {
        self.remaining = self.total;
    }

    /// Consumes `duration`; hands back what the timer could not take.
    pub fn process(&mut self, duration: Duration) -> (overflow: Option<Duration>)
        ensures
            *final(self) == old(self).processed(duration),
            overflow == old(self).overflow(duration),
            old(self).wf() ==> final(self).wf(),
    {
        if self.remaining.milliseconds >= duration.milliseconds {
            self.remaining = Duration {
                milliseconds: self.remaining.milliseconds - duration.milliseconds,
            };
            None
        } else {
            let overflow = Duration {
                milliseconds: duration.milliseconds - self.remaining.milliseconds,
            };
            self.remaining = Duration { milliseconds: 0 };
            Some(overflow)
        }
    }

    pub fn done(&self) -> (done: bool)
        ensures
            done == self.is_done(),
    {
        self.remaining.is_zero()
    }

    /// The declared lifetime.
    pub fn duration(&self) -> (total: Duration)
        ensures
            total == self.total,
    {
        self.total
    }

    pub fn remaining(&self) -> (remaining: Duration)
        ensures
            remaining == self.remaining,
    {
        self.remaining
    }

    pub fn interpolation(&self) -> (interpolation: Interpolation)
        ensures
            interpolation == self.interpolation,
    {
        self.interpolation
    }

    pub fn is_reversed(&self) -> (reversed: bool)
        ensures
            reversed == self.reverse,
    {
        self.reverse
    }

    /// The fraction that the easing curve is evaluated at, numerator first.
    pub fn progress(&self) -> (fraction: Option<(u32, u32)>)
        ensures
            fraction matches Some((n, d)) ==> self.raw_progress() == Some((n as int, d as int)),
            fraction.is_none() ==> self.raw_progress().is_none(),
    {
        if self.total.milliseconds == 0 {
            None
        } else if self.reverse {
            Some((self.remaining.milliseconds, self.total.milliseconds))
        } else {
            Some(
                (
                    self.total.milliseconds.saturating_sub(self.remaining.milliseconds),
                    self.total.milliseconds,
                ),
            )
        }
    }
}

impl Default for EffectTimer {
    fn default() -> (timer: Self)
        ensures
            timer == (EffectTimer {
                remaining: Duration { milliseconds: 0 },
                total: Duration { milliseconds: 0 },
                interpolation: Interpolation::Linear,
                reverse: false,
            }),
    {
        EffectTimer {
            remaining: Duration { milliseconds: 0 },
            total: Duration { milliseconds: 0 },
            interpolation: Interpolation::Linear,
            reverse: false,
        }
    }
}

impl From<u32> for EffectTimer {
    fn from(ms: u32) -> (timer: Self) {
        EffectTimer::new(Duration::from_millis(ms), Interpolation::Linear)
    }
}

impl FromSpecImpl<u32> for EffectTimer {
    open spec fn obeys_from_spec() -> bool {
        true
    }

    open spec fn from_spec(ms: u32) -> Self {
        EffectTimer {
            remaining: Duration { milliseconds: ms },
            total: Duration { milliseconds: ms },
            interpolation: Interpolation::Linear,
            reverse: false,
        }
    }
}

impl From<(u32, Interpolation)> for EffectTimer {
    fn from(pair: (u32, Interpolation)) -> (timer: Self) {
        EffectTimer::new(Duration::from_millis(pair.0), pair.1)
    }
}

impl FromSpecImpl<(u32, Interpolation)> for EffectTimer {
    open spec fn obeys_from_spec() -> bool {
        true
    }

    open spec fn from_spec(pair: (u32, Interpolation)) -> Self {
        EffectTimer {
            remaining: Duration { milliseconds: pair.0 },
            total: Duration { milliseconds: pair.0 },
            interpolation: pair.1,
            reverse: false,
        }
    }
}

impl From<(Duration, Interpolation)> for EffectTimer {
    fn from(pair: (Duration, Interpolation)) -> (timer: Self) {
        EffectTimer::new(pair.0, pair.1)
    }
}

impl FromSpecImpl<(Duration, Interpolation)> for EffectTimer {
    open spec fn obeys_from_spec() -> bool {
        true
    }

    open spec fn from_spec(pair: (Duration, Interpolation)) -> Self {
        EffectTimer { remaining: pair.0, total: pair.0, interpolation: pair.1, reverse: false }
    }
}

impl From<Duration> for EffectTimer {
    fn from(duration: Duration) -> (timer: Self) {
        EffectTimer::new(duration, Interpolation::Linear)
    }
}

impl FromSpecImpl<Duration> for EffectTimer {
    open spec fn obeys_from_spec() -> bool {
        true
    }

    open spec fn from_spec(duration: Duration) -> Self {
        EffectTimer {
            remaining: duration,
            total: duration,
            interpolation: Interpolation::Linear,
            reverse: false,
        }
    }
}

/// A timer fed exactly its lifetime ends at zero with nothing left over; fed
/// `extra` more than that, it hands exactly `extra` back.
pub proof fn lemma_timer_budget(total: Duration, interpolation: Interpolation, extra: Duration)
    requires
        extra.milliseconds > 0,
        total.milliseconds + extra.milliseconds <= u32::MAX,
    ensures
        ({
            let fresh = EffectTimer { remaining: total, total, interpolation, reverse: false };
            let more = Duration { milliseconds: (total.milliseconds + extra.milliseconds) as u32 };
            &&& fresh.processed(total).remaining.milliseconds == 0
            &&& fresh.overflow(total).is_none()
            &&& fresh.overflow(more) == Some(extra)
            &&& fresh.processed(more).is_done()
        }),
{
}

/// Reversing twice gives back the very same timer, and so the same progress.
pub proof fn lemma_reverse_twice(timer: EffectTimer)
    ensures
        timer.flipped().flipped() == timer,
        timer.flipped().flipped().raw_progress() == timer.raw_progress(),
        timer.flipped().total == timer.total,
        timer.flipped().remaining == timer.remaining,
{
}

/// With nothing consumed the easing curve is evaluated at 0, with everything
/// consumed at 1; a reversed timer runs between the same two ends the other way.
pub proof fn lemma_progress_bounds(timer: EffectTimer)
    requires
        timer.wf(),
        timer.total.milliseconds > 0,
    ensures
        !timer.reverse ==> timer.rewound().raw_progress() == Some(
            (0int, timer.total.milliseconds as int),
        ),
        !timer.reverse ==> timer.processed(timer.remaining).raw_progress() == Some(
            (timer.total.milliseconds as int, timer.total.milliseconds as int),
        ),
        timer.reverse ==> timer.rewound().raw_progress() == Some(
            (timer.total.milliseconds as int, timer.total.milliseconds as int),
        ),
        timer.reverse ==> timer.processed(timer.remaining).raw_progress() == Some(
            (0int, timer.total.milliseconds as int),
        ),
        timer.raw_progress() matches Some((n, d)) && 0 <= n <= d,
{
}

} // verus!
