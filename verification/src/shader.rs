//! The contract every unit of visual work fulfils.

use crate::cell_filter::CellFilter;
use crate::duration::Duration;
use crate::effect_timer::EffectTimer;
use crate::geometry::Rect;
use ratatui::buffer::Buffer;
use std::rc::Rc;
use vstd::prelude::*;

verus! {

/// The grid of cells that effects draw on. The library hands it through to
/// the shaders untouched and never looks inside.
#[verifier::external_type_specification]
#[verifier::external_body]
pub struct ExBuffer(ratatui::buffer::Buffer);

/// The outcome of one processing step: the shader afterwards, the share of the
/// budget it did not consume, and the grid as it left it.
pub struct Processed<T> {
    pub shader: T,
    pub overflow: Option<Duration>,
    pub buf: Buffer,
}

/// A unit of work that consumes a duration budget against a region of the grid.
///
/// Processing is a function of the shader's state, the budget, the grid and the
/// area alone; the specification functions give each operation's result a name
/// so that compositions of shaders can be described exactly.
pub trait Shader: Sized {
    /// The state, leftover budget and grid after `process`.
    ///
    /// Like the other specification functions of this trait it stands for
    /// whatever the implementation does: a function of the arguments about
    /// which nothing more is known.
    closed spec fn processed(&self, duration: Duration, buf: Buffer, area: Rect) -> Processed<Self> {
        let named: spec_fn(Self, Duration, Buffer, Rect) -> Processed<Self> = arbitrary();
        named(*self, duration, buf, area)
    }

    closed spec fn is_done(&self) -> bool {
        let named: spec_fn(Self) -> bool = arbitrary();
        named(*self)
    }

    closed spec fn label(&self) -> Seq<char> {
        let named: spec_fn(Self) -> Seq<char> = arbitrary();
        named(*self)
    }

    closed spec fn area_of(&self) -> Option<Rect> {
        let named: spec_fn(Self) -> Option<Rect> = arbitrary();
        named(*self)
    }

    /// The shader after `set_area`.
    closed spec fn placed(&self, area: Rect) -> Self {
        let named: spec_fn(Self, Rect) -> Self = arbitrary();
        named(*self, area)
    }

    closed spec fn selection(&self) -> Option<Rc<CellFilter>> {
        let named: spec_fn(Self) -> Option<Rc<CellFilter>> = arbitrary();
        named(*self)
    }

    /// The shader after `set_cell_selection`.
    closed spec fn selecting(&self, filter: Rc<CellFilter>) -> Self {
        let named: spec_fn(Self, Rc<CellFilter>) -> Self = arbitrary();
        named(*self, filter)
    }

    /// The shader after `reverse`.
    closed spec fn turned(&self) -> Self {
        let named: spec_fn(Self) -> Self = arbitrary();
        named(*self)
    }

    /// The shader after `reset`.
    closed spec fn rewound(&self) -> Self {
        let named: spec_fn(Self) -> Self = arbitrary();
        named(*self)
    }

    closed spec fn timer_of(&self) -> Option<EffectTimer> {
        let named: spec_fn(Self) -> Option<EffectTimer> = arbitrary();
        named(*self)
    }

    fn name(&self) -> (name: &'static str)
        ensures
            name@ == self.label(),
    ;

    /// Consumes `duration`, drawing on `buf` within `area`; returns what is
    /// left of the budget once the shader has finished.
    fn process(&mut self, duration: Duration, buf: &mut Buffer, area: Rect) -> (overflow: Option<
        Duration,
    >)
        ensures
            *final(self) == old(self).processed(duration, *old(buf), area).shader,
            overflow == old(self).processed(duration, *old(buf), area).overflow,
            *final(buf) == old(self).processed(duration, *old(buf), area).buf,
    ;

    fn done(&self) -> (done: bool)
        ensures
            done == self.is_done(),
    ;

    /// A copy that shares no state with the original.
    fn clone_box(&self) -> (copy: Box<Self>)
        ensures
            *copy == *self,
    ;

    fn area(&self) -> (area: Option<Rect>)
        ensures
            area == self.area_of(),
    ;

    fn set_area(&mut self, area: Rect)
        ensures
            *final(self) == old(self).placed(area),
    ;

    fn set_cell_selection(&mut self, filter: Rc<CellFilter>)
        ensures
            *final(self) == old(self).selecting(filter),
    ;

    fn cell_selection(&self) -> (filter: Option<Rc<CellFilter>>)
        ensures
            filter == self.selection(),
    ;

    fn reverse(&mut self)
        ensures
            *final(self) == old(self).turned(),
    ;

    fn reset(&mut self)
        ensures
            *final(self) == old(self).rewound(),
    ;

    /// The shader's declared timing, for diagnostics only.
    fn timer(&self) -> (timer: Option<EffectTimer>)
        ensures
            timer == self.timer_of(),
    ;
}

/// `Rc::clone`: another handle to the same value.
#[verifier::external_body]
pub(crate) fn share<T: ?Sized>(handle: &Rc<T>) -> (other: Rc<T>)
    ensures
        other == *handle,
{
    Rc::clone(handle)
}

} // verus!
