//! A combinator that caps how long its effect may run.

use crate::effect::area_or;
use crate::interpolation::Interpolation;
use crate::cell_filter::CellFilter;
use crate::duration::Duration;
use crate::effect::Effect;
use crate::effect_timer::EffectTimer;
use crate::geometry::Rect;
use crate::shader::{Processed, Shader};
use ratatui::buffer::Buffer;
use std::rc::Rc;
use vstd::prelude::*;

verus! {

/// Races a cap timer against the wrapped effect and is done as soon as either is.
pub struct TemporaryEffect<S> {
    pub effect: Effect<S>,
    pub timer: EffectTimer,
}

/// Bounds an effect in time.
pub trait IntoTemporaryEffect<S> {
    spec fn capped(self, duration: Duration) -> Effect<S>;

    fn with_duration(self, duration: Duration) -> (effect: Effect<S>)
        ensures
            effect == self.capped(duration),
    ;
}

impl<S: Shader> TemporaryEffect<S> {
    pub open spec fn is_done(&self) -> bool
        decreases self, 0int,
    {
        self.timer.is_done() || self.effect.is_done()
    }

    pub open spec fn label(&self) -> Seq<char> {
        "with_duration"@
    }

    pub open spec fn timer_of(&self) -> Option<EffectTimer> {
        Some(self.timer)
    }

    pub open spec fn area_of(&self) -> Option<Rect>
        decreases self, 0int,
    {
        self.effect.area_of()
    }

    pub open spec fn selection(&self) -> Option<Rc<CellFilter>>
        decreases self, 0int,
    {
        self.effect.selection()
    }

    pub open spec fn placed(&self, area: Rect) -> Self
        decreases self, 0int,
    {
        TemporaryEffect { effect: self.effect.placed(area), ..*self }
    }

    pub open spec fn selecting(&self, filter: Rc<CellFilter>) -> Self
        decreases self, 0int,
    {
        TemporaryEffect { effect: self.effect.selecting(filter), ..*self }
    }

    pub open spec fn processed(&self, duration: Duration, buf: Buffer, area: Rect) -> Processed<
        Self,
    >
        decreases self, 0int,
    {
        let p = self.effect.processed(duration, buf, area_or(self.effect.area_of(), area));
        Processed {
            shader: TemporaryEffect { effect: p.shader, timer: self.timer.processed(duration) },
            overflow: self.timer.overflow(duration),
            buf: p.buf,
        }
    }

    pub open spec fn rewound(&self) -> Self
        decreases self, 0int,
    {
        TemporaryEffect { effect: self.effect.rewound(), timer: self.timer.rewound() }
    }

    /// Reversing turns the cap timer; the wrapped effect keeps its direction.
    pub open spec fn turned(&self) -> Self {
        TemporaryEffect { timer: self.timer.flipped(), ..*self }
    }

    pub fn new(effect: Effect<S>, duration: Duration) -> (shader: Self)
        ensures
            shader == (TemporaryEffect {
                effect,
                timer: EffectTimer {
                    remaining: duration,
                    total: duration,
                    interpolation: Interpolation::Linear,
                    reverse: false,
                },
            }),
    {
        Self { effect, timer: EffectTimer::new(duration, Interpolation::Linear) }
    }

    pub fn clone_shader(&self) -> (copy: Self)
        ensures
            copy == *self,
        decreases self, 0int,
    {
        TemporaryEffect { effect: self.effect.clone_effect(), timer: self.timer }
    }

    pub fn name(&self) -> (name: &'static str)
        ensures
            name@ == self.label(),
    {
        "with_duration"
    }

    /// Feeds the tick to both the cap timer and the wrapped effect; the
    /// overflow is the cap timer's.
    pub fn process(&mut self, duration: Duration, buf: &mut Buffer, area: Rect) -> (overflow:
        Option<Duration>)
        ensures
            *final(self) == old(self).processed(duration, *old(buf), area).shader,
            overflow == old(self).processed(duration, *old(buf), area).overflow,
            *final(buf) == old(self).processed(duration, *old(buf), area).buf,
        decreases *old(self), 0int,
    {
        let remaining = self.timer.process(duration);
        let effect_area = match self.effect.area() {
            Some(own) => own,
            None => area,
        };
        self.effect.process(duration, buf, effect_area);
        remaining
    }

    pub fn done(&self) -> (done: bool)
        ensures
            done == self.is_done(),
        decreases self, 0int,
    {
        self.timer.done() || self.effect.done()
    }

    pub fn timer(&self) -> (timer: Option<EffectTimer>)
        ensures
            timer == self.timer_of(),
    {
        Some(self.timer)
    }

    pub fn area(&self) -> (area: Option<Rect>)
        ensures
            area == self.area_of(),
        decreases self, 0int,
    {
        self.effect.area()
    }

    pub fn cell_selection(&self) -> (filter: Option<Rc<CellFilter>>)
        ensures
            filter == self.selection(),
        decreases self, 0int,
    {
        self.effect.cell_selection()
    }

    pub fn set_area(&mut self, area: Rect)
        ensures
            *final(self) == old(self).placed(area),
        decreases *old(self), 0int,
    {
        self.effect.set_area(area);
    }

    pub fn set_cell_selection(&mut self, filter: Rc<CellFilter>)
        ensures
            *final(self) == old(self).selecting(filter),
        decreases *old(self), 0int,
    {
        self.effect.set_cell_selection(filter);
    }

    pub fn reset(&mut self)
        ensures
            *final(self) == old(self).rewound(),
        decreases *old(self), 0int,
    {
        self.effect.reset();
        self.timer.reset();
    }

    pub fn reverse(&mut self)
        ensures
            *final(self) == old(self).turned(),
    {
        self.timer = self.timer.reversed();
    }
}

} // verus!
