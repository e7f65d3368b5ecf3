//! A combinator that runs an effect again and again.

use crate::cell_filter::CellFilter;
use crate::duration::Duration;
use crate::effect::{lemma_fed_one_more, Effect, Fx};
use crate::fx::containers::{lemma_total_ms_is_not_negative, total_ms};
use crate::effect_timer::EffectTimer;
use crate::fx::sleep::fresh_timer;
use crate::geometry::Rect;
use crate::interpolation::Interpolation;
use crate::shader::{Processed, Shader};
use ratatui::buffer::Buffer;
use std::rc::Rc;
use vstd::prelude::*;

verus! {

/// How long a [`Repeat`] goes on.
#[derive(Clone, Copy, Debug, PartialEq, Eq, Structural)]
pub enum RepeatMode {
    /// Without end.
    Forever,
    /// For the given number of runs.
    Times(u32),
    /// Until the given time has been processed.
    Duration(Duration),
}

/// Runs the wrapped effect again and again, as far as `mode` allows. Every
/// run after the first starts from `fresh`, a rewound copy of the effect.
pub struct Repeat<S> {
    /// The run in progress.
    pub fx: Effect<S>,
    /// The effect as every further run starts.
    pub fresh: Effect<S>,
    pub mode: RepeatMode,
    pub original_mode: RepeatMode,
}

/// What is left of a duration once `taken` has been taken off it.
pub open spec fn beyond(duration: Duration, taken: Duration) -> Option<Duration> {
    if duration.milliseconds > taken.milliseconds {
        Some(Duration { milliseconds: (duration.milliseconds - taken.milliseconds) as u32 })
    } else {
        None
    }
}

/// The shorter of two durations.
pub open spec fn shorter(a: Duration, b: Duration) -> Duration {
    if a.milliseconds <= b.milliseconds {
        a
    } else {
        b
    }
}

/// New runs on a budget of `left`: a copy of `fresh` is fed the budget, and
/// as long as it completes and has taken some of the budget, another copy is
/// fed what it left. The step gives the run that is in progress at the end
/// and the grid; all of the budget is spent.
pub open spec fn restarted<S: Shader>(
    fresh: Effect<S>,
    left: Duration,
    buf: Buffer,
    area: Rect,
) -> Processed<Effect<S>>
    decreases fresh, 2int, left.milliseconds,
{
    if left.milliseconds == 0 {
        Processed { shader: fresh, overflow: None, buf }
    } else {
        let run = fresh.processed(left, buf, area);
        match run.overflow {
            Some(rest) => if rest.milliseconds < left.milliseconds {
                restarted(fresh, rest, run.buf, area)
            } else {
                Processed { shader: fresh, overflow: None, buf: run.buf }
            },
            None => Processed { shader: run.shader, overflow: None, buf: run.buf },
        }
    }
}

impl<S: Shader> Repeat<S> {
    pub open spec fn is_done(&self) -> bool {
        self.mode == RepeatMode::Times(0) || self.mode == RepeatMode::Duration(
            Duration { milliseconds: 0 },
        )
    }

    pub open spec fn label(&self) -> Seq<char> {
        "repeat"@
    }

    pub open spec fn area_of(&self) -> Option<Rect>
        decreases self, 0int,
    {
        self.fx.area_of()
    }

    pub open spec fn selection(&self) -> Option<Rc<CellFilter>>
        decreases self, 0int,
    {
        self.fx.selection()
    }

    /// The wrapped effect's declared timing, taken as often as runs are left,
    /// or a timer over what is left of the cap.
    pub open spec fn timer_of(&self) -> Option<EffectTimer>
        decreases self, 0int,
    {
        match self.mode {
            RepeatMode::Forever => self.fx.timer_of(),
            RepeatMode::Times(n) => match self.fx.timer_of() {
                Some(timer) => Some(timer.repeated(n)),
                None => None,
            },
            RepeatMode::Duration(cap) => Some(fresh_timer(cap, Interpolation::Linear)),
        }
    }

    /// Overflow is reported only by the step that ends the repetition.
    ///
    /// * `Forever`: a completed run makes way for a fresh one; nothing is reported.
    /// * `Times(n)`: a completed run counts `n` down. While runs are left a
    ///   fresh one takes its place and nothing is reported; the last run
    ///   reports its overflow.
    /// * `Duration(cap)`: the time processed is capped, whatever the effect
    ///   completes meanwhile. A step takes its budget off the cap, or the
    ///   whole cap where the budget is longer, and the effect is kept running
    ///   for exactly that long, run after run. What the budget holds beyond
    ///   the cap is the overflow.
    pub open spec fn processed(&self, duration: Duration, buf: Buffer, area: Rect) -> Processed<
        Self,
    >
        decreases self, 0int,
    {
        match self.mode {
            RepeatMode::Forever => {
                let p = self.fx.processed(duration, buf, area);
                Processed {
                    shader: Repeat {
                        fx: if p.overflow.is_some() {
                            self.fresh
                        } else {
                            p.shader
                        },
                        ..*self
                    },
                    overflow: None,
                    buf: p.buf,
                }
            },
            RepeatMode::Times(n) => {
                let p = self.fx.processed(duration, buf, area);
                if p.overflow.is_none() {
                    Processed { shader: Repeat { fx: p.shader, ..*self }, overflow: None, buf: p.buf }
                } else if n <= 1 {
                    Processed {
                        shader: Repeat { fx: p.shader, mode: RepeatMode::Times(0), ..*self },
                        overflow: p.overflow,
                        buf: p.buf,
                    }
                } else {
                    Processed {
                        shader: Repeat {
                            fx: self.fresh,
                            mode: RepeatMode::Times((n - 1) as u32),
                            ..*self
                        },
                        overflow: None,
                        buf: p.buf,
                    }
                }
            },
            RepeatMode::Duration(cap) => {
                let budget = shorter(duration, cap);
                let first = self.fx.processed(budget, buf, area);
                let run = match first.overflow {
                    Some(left) => restarted(self.fresh, left, first.buf, area),
                    None => first,
                };
                Processed {
                    shader: Repeat {
                        fx: run.shader,
                        mode: RepeatMode::Duration(
                            Duration {
                                milliseconds: (cap.milliseconds - budget.milliseconds) as u32,
                            },
                        ),
                        ..*self
                    },
                    overflow: beyond(duration, cap),
                    buf: run.buf,
                }
            },
        }
    }

    /// Back to the first run, fresh, with the mode as it was given.
    pub open spec fn rewound(&self) -> Self {
        Repeat { fx: self.fresh, mode: self.original_mode, ..*self }
    }

    /// A repetition has no direction of its own; reversing changes nothing.
    pub open spec fn turned(&self) -> Self {
        *self
    }

    pub open spec fn placed(&self, area: Rect) -> Self
        decreases self, 0int,
    {
        Repeat { fx: self.fx.placed(area), fresh: self.fresh.placed(area), ..*self }
    }

    pub open spec fn selecting(&self, filter: Rc<CellFilter>) -> Self
        decreases self, 0int,
    {
        Repeat { fx: self.fx.selecting(filter), fresh: self.fresh.selecting(filter), ..*self }
    }

    /// Every run after the first starts from a rewound copy of `fx`.
    pub fn new(fx: Effect<S>, mode: RepeatMode) -> (shader: Self)
        ensures
            shader == (Repeat { fx, fresh: fx.rewound(), mode, original_mode: mode }),
    {
        let mut fresh = fx.clone_effect();
        fresh.reset();
        Self { fx, fresh, mode, original_mode: mode }
    }

    pub fn clone_shader(&self) -> (copy: Self)
        ensures
            copy == *self,
        decreases self, 0int,
    {
        Repeat {
            fx: self.fx.clone_effect(),
            fresh: self.fresh.clone_effect(),
            mode: self.mode,
            original_mode: self.original_mode,
        }
    }

    pub fn name(&self) -> (name: &'static str)
        ensures
            name@ == self.label(),
    {
        "repeat"
    }

    /// Starts new runs on what the last one left; see [`restarted`].
    fn restart(fx: &mut Effect<S>, fresh: &Effect<S>, left: Duration, buf: &mut Buffer, area: Rect)
        ensures
            *final(fx) == restarted(*fresh, left, *old(buf), area).shader,
            *final(buf) == restarted(*fresh, left, *old(buf), area).buf,
        decreases *fresh, 2int, left.milliseconds,
    {
        *fx = fresh.clone_effect();
        if left.milliseconds == 0 {
            return ;
        }
        match fx.process(left, buf, area) {
            Some(rest) => {
                if rest.milliseconds < left.milliseconds {
                    Self::restart(fx, fresh, rest, buf, area);
                } else {
                    *fx = fresh.clone_effect();
                }
            },
            None => {},
        }
    }

    pub fn process(&mut self, duration: Duration, buf: &mut Buffer, area: Rect) -> (overflow:
        Option<Duration>)
        ensures
            *final(self) == old(self).processed(duration, *old(buf), area).shader,
            overflow == old(self).processed(duration, *old(buf), area).overflow,
            *final(buf) == old(self).processed(duration, *old(buf), area).buf,
        decreases *old(self), 0int,
    {
        match self.mode {
            RepeatMode::Forever => {
                if self.fx.process(duration, buf, area).is_some() {
                    self.fx = self.fresh.clone_effect();
                }
                None
            },
            RepeatMode::Times(n) => {
                let overflow = self.fx.process(duration, buf, area);
                if overflow.is_none() {
                    None
                } else if n <= 1 {
                    self.mode = RepeatMode::Times(0);
                    overflow
                } else {
                    self.mode = RepeatMode::Times(n - 1);
                    self.fx = self.fresh.clone_effect();
                    None
                }
            },
            RepeatMode::Duration(cap) => {
                let budget = duration.min(cap);
                self.mode = RepeatMode::Duration(
                    Duration { milliseconds: cap.milliseconds - budget.milliseconds },
                );
                match self.fx.process(budget, buf, area) {
                    Some(left) => Self::restart(&mut self.fx, &self.fresh, left, buf, area),
                    None => {},
                }
                if duration.milliseconds > cap.milliseconds {
                    Some(Duration { milliseconds: duration.milliseconds - cap.milliseconds })
                } else {
                    None
                }
            },
        }
    }

    pub fn done(&self) -> (done: bool)
        ensures
            done == self.is_done(),
    {
        match self.mode {
            RepeatMode::Forever => false,
            RepeatMode::Times(n) => n == 0,
            RepeatMode::Duration(cap) => cap.milliseconds == 0,
        }
    }

    pub fn area(&self) -> (area: Option<Rect>)
        ensures
            area == self.area_of(),
        decreases self, 0int,
    {
        self.fx.area()
    }

    pub fn cell_selection(&self) -> (filter: Option<Rc<CellFilter>>)
        ensures
            filter == self.selection(),
        decreases self, 0int,
    {
        self.fx.cell_selection()
    }

    pub fn timer(&self) -> (timer: Option<EffectTimer>)
        ensures
            timer == self.timer_of(),
        decreases self, 0int,
    {
        match self.mode {
            RepeatMode::Forever => self.fx.timer(),
            RepeatMode::Times(n) => match self.fx.timer() {
                Some(timer) => Some(timer.scaled(n)),
                None => None,
            },
            RepeatMode::Duration(cap) => Some(EffectTimer::new(cap, Interpolation::Linear)),
        }
    }

    pub fn reset(&mut self)
        ensures
            *final(self) == old(self).rewound(),
    {
        self.fx = self.fresh.clone_effect();
        self.mode = self.original_mode;
    }

    pub fn reverse(&mut self)
        ensures
            *final(self) == old(self).turned(),
    {
    }

    pub fn set_area(&mut self, area: Rect)
        ensures
            *final(self) == old(self).placed(area),
        decreases *old(self), 0int,
    {
        self.fx.set_area(area);
        self.fresh.set_area(area);
    }

    pub fn set_cell_selection(&mut self, filter: Rc<CellFilter>)
        ensures
            *final(self) == old(self).selecting(filter),
        decreases *old(self), 0int,
    {
        self.fresh.set_cell_selection(crate::shader::share(&filter));
        self.fx.set_cell_selection(filter);
    }
}

/// A repetition under a cap after `elapsed` milliseconds in all has what the
/// cap holds beyond them left to run.
pub open spec fn cap_left(cap: Duration, elapsed: int) -> RepeatMode {
    RepeatMode::Duration(
        Duration {
            milliseconds: if elapsed < cap.milliseconds {
                (cap.milliseconds - elapsed) as u32
            } else {
                0
            },
        },
    )
}

/// The mode of the repetition an effect owns.
pub open spec fn mode_of<S>(effect: Effect<S>) -> Option<RepeatMode> {
    match *effect.shader {
        Fx::Repeat(repeat) => Some(repeat.mode),
        _ => None,
    }
}

/// A repetition under a cap processes exactly the time of the cap, whatever
/// the effect completes meanwhile and however the time is cut into ticks:
/// it is done exactly when the time fed has reached the cap, and a tick
/// reports only what it holds beyond the cap.
pub proof fn lemma_repeat_cap<S: Shader>(
    repeat: Repeat<S>,
    cap: Duration,
    ticks: Seq<Duration>,
    buf: Buffer,
    area: Rect,
)
    requires
        repeat.mode == RepeatMode::Duration(cap),
        ticks.len() > 0,
        total_ms(ticks) <= u32::MAX,
    ensures
        ({
            let effect = Effect { shader: Box::new(Fx::Repeat(repeat)) };
            let end = effect.fed(ticks, buf, area);
            let before = total_ms(ticks.drop_last());
            &&& mode_of(end.shader) == Some(cap_left(cap, total_ms(ticks)))
            &&& end.shader.is_done() <==> total_ms(ticks) >= cap.milliseconds
            &&& end.overflow == beyond(
                ticks.last(),
                Duration {
                    milliseconds: if before < cap.milliseconds {
                        (cap.milliseconds - before) as u32
                    } else {
                        0
                    },
                },
            )
        }),
    decreases ticks.len(),
{
    let effect = Effect { shader: Box::new(Fx::Repeat(repeat)) };
    let earlier = ticks.drop_last();
    lemma_total_ms_is_not_negative(ticks);
    lemma_total_ms_is_not_negative(earlier);
    lemma_fed_one_more(effect, ticks, buf, area);
    if earlier.len() > 0 {
        lemma_repeat_cap(repeat, cap, earlier, buf, area);
    } else {
        assert(total_ms(earlier) == 0);
        assert(effect.fed(earlier, buf, area).shader == effect);
    }
    let so_far = effect.fed(earlier, buf, area);
    assert(mode_of(so_far.shader) == Some(cap_left(cap, total_ms(earlier))));
    match *so_far.shader.shader {
        Fx::Repeat(running) => {
            let step = running.processed(
                ticks.last(),
                so_far.buf,
                crate::effect::area_or(so_far.shader.area_of(), area),
            );
            assert(effect.fed(ticks, buf, area).overflow == step.overflow);
            assert(mode_of(effect.fed(ticks, buf, area).shader) == Some(step.shader.mode));
        },
        _ => {},
    }
}

} // verus!
