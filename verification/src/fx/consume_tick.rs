//! An effect that swallows whatever is left of one tick.

use crate::cell_filter::CellFilter;
use crate::duration::Duration;
use crate::effect_timer::EffectTimer;
use crate::geometry::Rect;
use crate::shader::Processed;
use ratatui::buffer::Buffer;
use std::rc::Rc;
use vstd::prelude::*;

verus! {

/// Takes the whole budget of the first tick it sees and is done after it.
#[derive(Clone, Copy, Debug, PartialEq, Eq, Structural)]
pub struct ConsumeTick {
    pub has_consumed_tick: bool,
}

impl ConsumeTick {
    pub open spec fn is_done(&self) -> bool {
        self.has_consumed_tick
    }

    pub open spec fn label(&self) -> Seq<char> {
        "consume_tick"@
    }

    pub open spec fn area_of(&self) -> Option<Rect> {
        None
    }

    pub open spec fn selection(&self) -> Option<Rc<CellFilter>> {
        None
    }

    pub open spec fn timer_of(&self) -> Option<EffectTimer> {
        None
    }

    pub open spec fn processed(&self, duration: Duration, buf: Buffer, area: Rect) -> Processed<
        Self,
    > {
        Processed { shader: ConsumeTick { has_consumed_tick: true }, overflow: None, buf }
    }

    pub open spec fn rewound(&self) -> Self {
        ConsumeTick { has_consumed_tick: false }
    }

    pub open spec fn turned(&self) -> Self {
        *self
    }

    pub open spec fn placed(&self, area: Rect) -> Self {
        *self
    }

    pub open spec fn selecting(&self, filter: Rc<CellFilter>) -> Self {
        *self
    }

    pub fn name(&self) -> (name: &'static str)
        ensures
            name@ == self.label(),
    {
        "consume_tick"
    }

    /// Takes the whole budget, whatever its size.
    pub fn process(&mut self, duration: Duration, buf: &mut Buffer, area: Rect) -> (overflow:
        Option<Duration>)
        ensures
            *final(self) == old(self).processed(duration, *old(buf), area).shader,
            overflow == old(self).processed(duration, *old(buf), area).overflow,
            *final(buf) == old(self).processed(duration, *old(buf), area).buf,
    {
        self.has_consumed_tick = true;
        None
    }

    pub fn done(&self) -> (done: bool)
        ensures
            done == self.is_done(),
    {
        self.has_consumed_tick
    }

    pub fn area(&self) -> (area: Option<Rect>)
        ensures
            area == self.area_of(),
    {
        None
    }

    pub fn cell_selection(&self) -> (filter: Option<Rc<CellFilter>>)
        ensures
            filter == self.selection(),
    {
        None
    }

    pub fn timer(&self) -> (timer: Option<EffectTimer>)
        ensures
            timer == self.timer_of(),
    {
        None
    }

    pub fn reset(&mut self)
        ensures
            *final(self) == old(self).rewound(),
    {
        self.has_consumed_tick = false;
    }

    /// There is no direction to change.
    pub fn reverse(&mut self)
        ensures
            *final(self) == old(self).turned(),
    {
    }

    pub fn set_area(&mut self, area: Rect)
        ensures
            *final(self) == old(self).placed(area),
    {
    }

    pub fn set_cell_selection(&mut self, filter: Rc<CellFilter>)
        ensures
            *final(self) == old(self).selecting(filter),
    {
    }
}

impl Default for ConsumeTick {
    fn default() -> (tick: Self)
        ensures
            tick == (ConsumeTick { has_consumed_tick: false }),
    {
        ConsumeTick { has_consumed_tick: false }
    }
}

} // verus!
