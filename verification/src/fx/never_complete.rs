//! A combinator that keeps its effect running past its end.

use crate::cell_filter::CellFilter;
use crate::duration::Duration;
use crate::effect::Effect;
use crate::effect_timer::EffectTimer;
use crate::geometry::Rect;
use crate::shader::{Processed, Shader};
use ratatui::buffer::Buffer;
use std::rc::Rc;
use vstd::prelude::*;

verus! {

/// Forwards every tick to the wrapped effect, reports no overflow and is never done.
pub struct NeverComplete<S> {
    pub effect: Effect<S>,
}

impl<S: Shader> NeverComplete<S> {
    pub open spec fn is_done(&self) -> bool {
        false
    }

    pub open spec fn label(&self) -> Seq<char> {
        "never_complete"@
    }

    pub open spec fn timer_of(&self) -> Option<EffectTimer> {
        None
    }

    pub open spec fn area_of(&self) -> Option<Rect>
        decreases self, 0int,
    {
        self.effect.area_of()
    }

    pub open spec fn selection(&self) -> Option<Rc<CellFilter>>
        decreases self, 0int,
    {
        self.effect.selection()
    }

    pub open spec fn placed(&self, area: Rect) -> Self
        decreases self, 0int,
    {
        NeverComplete { effect: self.effect.placed(area), ..*self }
    }

    pub open spec fn selecting(&self, filter: Rc<CellFilter>) -> Self
        decreases self, 0int,
    {
        NeverComplete { effect: self.effect.selecting(filter), ..*self }
    }

    pub open spec fn processed(&self, duration: Duration, buf: Buffer, area: Rect) -> Processed<
        Self,
    >
        decreases self, 0int,
    {
        let p = self.effect.processed(duration, buf, area);
        Processed { shader: NeverComplete { effect: p.shader }, overflow: None, buf: p.buf }
    }

    pub open spec fn rewound(&self) -> Self
        decreases self, 0int,
    {
        NeverComplete { effect: self.effect.rewound() }
    }

    pub open spec fn turned(&self) -> Self
        decreases self, 0int,
    {
        NeverComplete { effect: self.effect.turned() }
    }

    pub fn new(effect: Effect<S>) -> (shader: Self)
        ensures
            shader == (NeverComplete { effect }),
    {
        Self { effect }
    }

    pub fn clone_shader(&self) -> (copy: Self)
        ensures
            copy == *self,
        decreases self, 0int,
    {
        NeverComplete { effect: self.effect.clone_effect() }
    }

    pub fn name(&self) -> (name: &'static str)
        ensures
            name@ == self.label(),
    {
        "never_complete"
    }

    /// Advances the wrapped effect and discards whatever overflow it reports.
    pub fn process(&mut self, duration: Duration, buf: &mut Buffer, area: Rect) -> (overflow:
        Option<Duration>)
        ensures
            *final(self) == old(self).processed(duration, *old(buf), area).shader,
            overflow == old(self).processed(duration, *old(buf), area).overflow,
            *final(buf) == old(self).processed(duration, *old(buf), area).buf,
        decreases *old(self), 0int,
    {
        self.effect.process(duration, buf, area);
        None
    }

    pub fn done(&self) -> (done: bool)
        ensures
            done == self.is_done(),
    {
        false
    }

    pub fn timer(&self) -> (timer: Option<EffectTimer>)
        ensures
            timer == self.timer_of(),
    {
        None
    }

    pub fn area(&self) -> (area: Option<Rect>)
        ensures
            area == self.area_of(),
        decreases self, 0int,
    {
        self.effect.area()
    }

    pub fn cell_selection(&self) -> (filter: Option<Rc<CellFilter>>)
        ensures
            filter == self.selection(),
        decreases self, 0int,
    {
        self.effect.cell_selection()
    }

    pub fn set_area(&mut self, area: Rect)
        ensures
            *final(self) == old(self).placed(area),
        decreases *old(self), 0int,
    {
        self.effect.set_area(area);
    }

    pub fn set_cell_selection(&mut self, filter: Rc<CellFilter>)
        ensures
            *final(self) == old(self).selecting(filter),
        decreases *old(self), 0int,
    {
        self.effect.set_cell_selection(filter);
    }

    pub fn reset(&mut self)
        ensures
            *final(self) == old(self).rewound(),
        decreases *old(self), 0int,
    {
        self.effect.reset();
    }

    pub fn reverse(&mut self)
        ensures
            *final(self) == old(self).turned(),
        decreases *old(self), 0int,
    {
        self.effect.reverse();
    }
}

} // verus!
