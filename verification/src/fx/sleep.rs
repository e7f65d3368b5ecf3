//! An effect that only lets time pass.

use crate::cell_filter::CellFilter;
use crate::duration::Duration;
use crate::effect_timer::EffectTimer;
use crate::geometry::Rect;
use crate::shader::{Processed, Shader};
use ratatui::buffer::Buffer;
use std::rc::Rc;
use vstd::prelude::*;

verus! {

/// Consumes its timer's lifetime and draws nothing.
#[derive(Clone, Copy, Debug, PartialEq, Eq, Structural)]
pub struct Sleep {
    pub timer: EffectTimer,
}

/// A timer that has not started yet.
pub open spec fn fresh_timer(total: Duration, interpolation: crate::interpolation::Interpolation) -> EffectTimer {
    EffectTimer { remaining: total, total, interpolation, reverse: false }
}

impl Sleep {
    pub open spec fn is_done(&self) -> bool {
        self.timer.is_done()
    }

    pub open spec fn label(&self) -> Seq<char> {
        "sleep"@
    }

    pub open spec fn area_of(&self) -> Option<Rect> {
        None
    }

    pub open spec fn selection(&self) -> Option<Rc<CellFilter>> {
        None
    }

    pub open spec fn timer_of(&self) -> Option<EffectTimer> {
        Some(self.timer)
    }

    pub open spec fn processed(&self, duration: Duration, buf: Buffer, area: Rect) -> Processed<
        Self,
    > {
        Processed {
            shader: Sleep { timer: self.timer.processed(duration) },
            overflow: self.timer.overflow(duration),
            buf,
        }
    }

    pub open spec fn rewound(&self) -> Self {
        Sleep { timer: self.timer.rewound() }
    }

    pub open spec fn turned(&self) -> Self {
        Sleep { timer: self.timer.flipped() }
    }

    pub open spec fn placed(&self, area: Rect) -> Self {
        *self
    }

    pub open spec fn selecting(&self, filter: Rc<CellFilter>) -> Self {
        *self
    }

    pub fn new<T: Into<EffectTimer>>(duration: T) -> (sleep: Self)
        ensures
            call_ensures(T::into, (duration,), sleep.timer),
    {
        Self { timer: duration.into() }
    }

    pub fn name(&self) -> (name: &'static str)
        ensures
            name@ == self.label(),
    {
        "sleep"
    }

    /// Runs the timer down; the grid is left as it is.
    pub fn process(&mut self, duration: Duration, buf: &mut Buffer, area: Rect) -> (overflow:
        Option<Duration>)
        ensures
            *final(self) == old(self).processed(duration, *old(buf), area).shader,
            overflow == old(self).processed(duration, *old(buf), area).overflow,
            *final(buf) == old(self).processed(duration, *old(buf), area).buf,
    {
        self.timer.process(duration)
    }

    pub fn done(&self) -> (done: bool)
        ensures
            done == self.is_done(),
    {
        self.timer.done()
    }

    pub fn area(&self) -> (area: Option<Rect>)
        ensures
            area == self.area_of(),
    {
        None
    }

    pub fn cell_selection(&self) -> (filter: Option<Rc<CellFilter>>)
        ensures
            filter == self.selection(),
    {
        None
    }

    pub fn timer(&self) -> (timer: Option<EffectTimer>)
        ensures
            timer == self.timer_of(),
    {
        Some(self.timer)
    }

    pub fn reset(&mut self)
        ensures
            *final(self) == old(self).rewound(),
    {
        self.timer.reset();
    }

    pub fn reverse(&mut self)
        ensures
            *final(self) == old(self).turned(),
    {
        self.timer = self.timer.reversed();
    }

    /// A sleep has no area; the call changes nothing.
    pub fn set_area(&mut self, area: Rect)
        ensures
            *final(self) == old(self).placed(area),
    {
    }

    /// A sleep selects no cells; the call changes nothing.
    pub fn set_cell_selection(&mut self, filter: Rc<CellFilter>)
        ensures
            *final(self) == old(self).selecting(filter),
    {
    }
}

/// A sleep is itself a shader, so effects can be built over it where no
/// drawing shader is needed.
impl Shader for Sleep {
    open spec fn processed(&self, duration: Duration, buf: Buffer, area: Rect) -> Processed<Self> {
        Sleep::processed(self, duration, buf, area)
    }

    open spec fn is_done(&self) -> bool {
        Sleep::is_done(self)
    }

    open spec fn label(&self) -> Seq<char> {
        Sleep::label(self)
    }

    open spec fn area_of(&self) -> Option<Rect> {
        Sleep::area_of(self)
    }

    open spec fn placed(&self, area: Rect) -> Self {
        Sleep::placed(self, area)
    }

    open spec fn selection(&self) -> Option<Rc<CellFilter>> {
        Sleep::selection(self)
    }

    open spec fn selecting(&self, filter: Rc<CellFilter>) -> Self {
        Sleep::selecting(self, filter)
    }

    open spec fn turned(&self) -> Self {
        Sleep::turned(self)
    }

    open spec fn rewound(&self) -> Self {
        Sleep::rewound(self)
    }

    open spec fn timer_of(&self) -> Option<EffectTimer> {
        Sleep::timer_of(self)
    }

    fn name(&self) -> (name: &'static str) {
        Sleep::name(self)
    }

    fn process(&mut self, duration: Duration, buf: &mut Buffer, area: Rect) -> (overflow: Option<
        Duration,
    >) {
        Sleep::process(self, duration, buf, area)
    }

    fn done(&self) -> (done: bool) {
        Sleep::done(self)
    }

    fn clone_box(&self) -> (copy: Box<Self>) {
        Box::new(*self)
    }

    fn area(&self) -> (area: Option<Rect>) {
        Sleep::area(self)
    }

    fn set_area(&mut self, area: Rect) {
        Sleep::set_area(self, area)
    }

    fn set_cell_selection(&mut self, filter: Rc<CellFilter>) {
        Sleep::set_cell_selection(self, filter)
    }

    fn cell_selection(&self) -> (filter: Option<Rc<CellFilter>>) {
        Sleep::cell_selection(self)
    }

    fn reverse(&mut self) {
        Sleep::reverse(self)
    }

    fn reset(&mut self) {
        Sleep::reset(self)
    }

    fn timer(&self) -> (timer: Option<EffectTimer>) {
        Sleep::timer(self)
    }
}

} // verus!
