//! A combinator that pads an effect with idle time at its start or at its end.

use crate::cell_filter::CellFilter;
use crate::duration::Duration;
use crate::effect::Effect;
use crate::effect_timer::EffectTimer;
use crate::fx::sleep::fresh_timer;
use crate::geometry::Rect;
use crate::interpolation::Interpolation;
use crate::shader::{Processed, Shader};
use ratatui::buffer::Buffer;
use std::rc::Rc;
use vstd::prelude::*;

verus! {

/// Where the extra time of a [`Prolong`] goes.
#[derive(Clone, Copy, Debug, PartialEq, Eq, Structural)]
pub enum ProlongPosition {
    Start,
    End,
}

/// Wraps an effect and a timer with the extra time. The wrapped effect's own
/// duration is untouched.
pub struct Prolong<S> {
    pub inner: Effect<S>,
    pub timer: EffectTimer,
    pub position: ProlongPosition,
}

impl<S: Shader> Prolong<S> {
    pub open spec fn is_done(&self) -> bool
        decreases self, 0int,
    {
        self.timer.is_done() && self.inner.is_done()
    }

    pub open spec fn label(&self) -> Seq<char> {
        match self.position {
            ProlongPosition::Start => "prolong_start"@,
            ProlongPosition::End => "prolong_end"@,
        }
    }

    /// The extra time and the wrapped effect's declared duration added up,
    /// capped at the longest duration there is.
    pub open spec fn timer_of(&self) -> Option<EffectTimer>
        decreases self, 0int,
    {
        let inner = match self.inner.timer_of() {
            Some(timer) => timer.total,
            None => Duration { milliseconds: 0 },
        };
        Some(fresh_timer(self.timer.total.capped_sum(inner), Interpolation::Linear))
    }

    pub open spec fn area_of(&self) -> Option<Rect>
        decreases self, 0int,
    {
        self.inner.area_of()
    }

    pub open spec fn selection(&self) -> Option<Rc<CellFilter>>
        decreases self, 0int,
    {
        self.inner.selection()
    }

    pub open spec fn placed(&self, area: Rect) -> Self
        decreases self, 0int,
    {
        Prolong { inner: self.inner.placed(area), ..*self }
    }

    pub open spec fn selecting(&self, filter: Rc<CellFilter>) -> Self
        decreases self, 0int,
    {
        Prolong { inner: self.inner.selecting(filter), ..*self }
    }

    /// At the start, the extra timer takes the budget first and the wrapped
    /// effect gets what the timer leaves, or nothing. At the end, the wrapped
    /// effect takes the budget first and the extra timer gets what it leaves.
    pub open spec fn processed(&self, duration: Duration, buf: Buffer, area: Rect) -> Processed<
        Self,
    >
        decreases self, 0int,
    {
        match self.position {
            ProlongPosition::Start => {
                let left = match self.timer.overflow(duration) {
                    Some(left) => left,
                    None => Duration { milliseconds: 0 },
                };
                let p = self.inner.processed(left, buf, area);
                Processed {
                    shader: Prolong {
                        inner: p.shader,
                        timer: self.timer.processed(duration),
                        ..*self
                    },
                    overflow: p.overflow,
                    buf: p.buf,
                }
            },
            ProlongPosition::End => {
                let p = self.inner.processed(duration, buf, area);
                match p.overflow {
                    Some(left) => Processed {
                        shader: Prolong {
                            inner: p.shader,
                            timer: self.timer.processed(left),
                            ..*self
                        },
                        overflow: self.timer.overflow(left),
                        buf: p.buf,
                    },
                    None => Processed {
                        shader: Prolong { inner: p.shader, ..*self },
                        overflow: None,
                        buf: p.buf,
                    },
                }
            },
        }
    }

    pub open spec fn rewound(&self) -> Self
        decreases self, 0int,
    {
        Prolong { inner: self.inner.rewound(), timer: self.timer.rewound(), ..*self }
    }

    /// A prolonged effect has no direction of its own; reversing changes nothing.
    pub open spec fn turned(&self) -> Self {
        *self
    }

    pub fn new(position: ProlongPosition, additional_duration: EffectTimer, inner: Effect<S>) -> (shader:
        Self)
        ensures
            shader == (Prolong { inner, timer: additional_duration, position }),
    {
        Self { inner, timer: additional_duration, position }
    }

    pub fn clone_shader(&self) -> (copy: Self)
        ensures
            copy == *self,
        decreases self, 0int,
    {
        Prolong {
            inner: self.inner.clone_effect(),
            timer: self.timer,
            position: self.position,
        }
    }

    pub fn name(&self) -> (name: &'static str)
        ensures
            name@ == self.label(),
    {
        match self.position {
            ProlongPosition::Start => "prolong_start",
            ProlongPosition::End => "prolong_end",
        }
    }

    pub fn process(&mut self, duration: Duration, buf: &mut Buffer, area: Rect) -> (overflow:
        Option<Duration>)
        ensures
            *final(self) == old(self).processed(duration, *old(buf), area).shader,
            overflow == old(self).processed(duration, *old(buf), area).overflow,
            *final(buf) == old(self).processed(duration, *old(buf), area).buf,
        decreases *old(self), 0int,
    {
        match self.position {
            ProlongPosition::Start => {
                let left = match self.timer.process(duration) {
                    Some(left) => left,
                    None => Duration::zero(),
                };
                self.inner.process(left, buf, area)
            },
            ProlongPosition::End => {
                match self.inner.process(duration, buf, area) {
                    Some(left) => self.timer.process(left),
                    None => None,
                }
            },
        }
    }

    /// Done once both the extra time and the wrapped effect are.
    pub fn done(&self) -> (done: bool)
        ensures
            done == self.is_done(),
        decreases self, 0int,
    {
        self.timer.done() && self.inner.done()
    }

    pub fn timer(&self) -> (timer: Option<EffectTimer>)
        ensures
            timer == self.timer_of(),
        decreases self, 0int,
    {
        let inner = match self.inner.timer() {
            Some(timer) => timer.duration(),
            None => Duration::zero(),
        };
        Some(EffectTimer::new(self.timer.duration().saturating_add(inner), Interpolation::Linear))
    }

    pub fn area(&self) -> (area: Option<Rect>)
        ensures
            area == self.area_of(),
        decreases self, 0int,
    {
        self.inner.area()
    }

    pub fn cell_selection(&self) -> (filter: Option<Rc<CellFilter>>)
        ensures
            filter == self.selection(),
        decreases self, 0int,
    {
        self.inner.cell_selection()
    }

    pub fn set_area(&mut self, area: Rect)
        ensures
            *final(self) == old(self).placed(area),
        decreases *old(self), 0int,
    {
        self.inner.set_area(area);
    }

    pub fn set_cell_selection(&mut self, filter: Rc<CellFilter>)
        ensures
            *final(self) == old(self).selecting(filter),
        decreases *old(self), 0int,
    {
        self.inner.set_cell_selection(filter);
    }

    pub fn reset(&mut self)
        ensures
            *final(self) == old(self).rewound(),
        decreases *old(self), 0int,
    {
        self.timer.reset();
        self.inner.reset();
    }

    pub fn reverse(&mut self)
        ensures
            *final(self) == old(self).turned(),
    {
    }
}

} // verus!
