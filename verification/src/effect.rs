//! The composable effect: one shader, owned, with the operations every shader offers.

use crate::cell_filter::CellFilter;
use crate::duration::Duration;
use crate::effect_timer::EffectTimer;
use crate::fx::consume_tick::ConsumeTick;
use crate::fx::containers::{ParallelEffect, SequentialEffect};
use crate::fx::never_complete::NeverComplete;
use crate::fx::ping_pong::PingPong;
use crate::fx::prolong::Prolong;
use crate::fx::repeat::Repeat;
use crate::fx::sleep::Sleep;
use crate::fx::temporary::TemporaryEffect;
use crate::geometry::Rect;
use crate::shader::{Processed, Shader};
use ratatui::buffer::Buffer;
use std::rc::Rc;
use vstd::prelude::*;

verus! {

/// The shaders an effect can own: a custom shader `S`, or one of the built-in
/// leaves, containers and combinators over further effects.
pub enum Fx<S> {
    Shader(S),
    Sleep(Sleep),
    ConsumeTick(ConsumeTick),
    Sequential(SequentialEffect<S>),
    Parallel(ParallelEffect<S>),
    Repeat(Repeat<S>),
    PingPong(PingPong<S>),
    Prolong(Prolong<S>),
    NeverComplete(NeverComplete<S>),
    Temporary(TemporaryEffect<S>),
}

/// A value that owns exactly one shader. Cloning an effect clones the whole
/// tree below it; two effects never share mutable state.
pub struct Effect<S> {
    pub shader: Box<Fx<S>>,
}

/// The area an effect works on: its own where it has one, else the one offered.
pub open spec fn area_or(own: Option<Rect>, offered: Rect) -> Rect {
    match own {
        Some(area) => area,
        None => offered,
    }
}

impl<S: Shader> Effect<S> {
    pub open spec fn is_done(&self) -> bool
        decreases self, 1int,
    {
        match *self.shader {
            Fx::Shader(s) => s.is_done(),
            Fx::Sleep(s) => s.is_done(),
            Fx::ConsumeTick(s) => s.is_done(),
            Fx::Sequential(s) => s.is_done(),
            Fx::Parallel(s) => s.is_done(),
            Fx::Repeat(s) => s.is_done(),
            Fx::PingPong(s) => s.is_done(),
            Fx::Prolong(s) => s.is_done(),
            Fx::NeverComplete(s) => s.is_done(),
            Fx::Temporary(s) => s.is_done(),
        }
    }

    pub open spec fn label(&self) -> Seq<char> {
        match *self.shader {
            Fx::Shader(s) => s.label(),
            Fx::Sleep(s) => s.label(),
            Fx::ConsumeTick(s) => s.label(),
            Fx::Sequential(s) => s.label(),
            Fx::Parallel(s) => s.label(),
            Fx::Repeat(s) => s.label(),
            Fx::PingPong(s) => s.label(),
            Fx::Prolong(s) => s.label(),
            Fx::NeverComplete(s) => s.label(),
            Fx::Temporary(s) => s.label(),
        }
    }

    pub open spec fn area_of(&self) -> Option<Rect>
        decreases self, 1int,
    {
        match *self.shader {
            Fx::Shader(s) => s.area_of(),
            Fx::Sleep(s) => s.area_of(),
            Fx::ConsumeTick(s) => s.area_of(),
            Fx::Sequential(s) => s.area_of(),
            Fx::Parallel(s) => s.area_of(),
            Fx::Repeat(s) => s.area_of(),
            Fx::PingPong(s) => s.area_of(),
            Fx::Prolong(s) => s.area_of(),
            Fx::NeverComplete(s) => s.area_of(),
            Fx::Temporary(s) => s.area_of(),
        }
    }

    pub open spec fn selection(&self) -> Option<Rc<CellFilter>>
        decreases self, 1int,
    {
        match *self.shader {
            Fx::Shader(s) => s.selection(),
            Fx::Sleep(s) => s.selection(),
            Fx::ConsumeTick(s) => s.selection(),
            Fx::Sequential(s) => s.selection(),
            Fx::Parallel(s) => s.selection(),
            Fx::Repeat(s) => s.selection(),
            Fx::PingPong(s) => s.selection(),
            Fx::Prolong(s) => s.selection(),
            Fx::NeverComplete(s) => s.selection(),
            Fx::Temporary(s) => s.selection(),
        }
    }

    pub open spec fn timer_of(&self) -> Option<EffectTimer>
        decreases self, 1int,
    {
        match *self.shader {
            Fx::Shader(s) => s.timer_of(),
            Fx::Sleep(s) => s.timer_of(),
            Fx::ConsumeTick(s) => s.timer_of(),
            Fx::Sequential(s) => s.timer_of(),
            Fx::Parallel(s) => s.timer_of(),
            Fx::Repeat(s) => s.timer_of(),
            Fx::PingPong(s) => s.timer_of(),
            Fx::Prolong(s) => s.timer_of(),
            Fx::NeverComplete(s) => s.timer_of(),
            Fx::Temporary(s) => s.timer_of(),
        }
    }

    /// The effect, the leftover budget and the grid after `process`.
    pub open spec fn processed(&self, duration: Duration, buf: Buffer, area: Rect) -> Processed<
        Self,
    >
        decreases self, 1int,
    {
        let area = area_or(self.area_of(), area);
        match *self.shader {
            Fx::Shader(s) => {
                let p = s.processed(duration, buf, area);
                Processed {
                    shader: Effect { shader: Box::new(Fx::Shader(p.shader)) },
                    overflow: p.overflow,
                    buf: p.buf,
                }
            },
            Fx::Sleep(s) => {
                let p = s.processed(duration, buf, area);
                Processed {
                    shader: Effect { shader: Box::new(Fx::Sleep(p.shader)) },
                    overflow: p.overflow,
                    buf: p.buf,
                }
            },
            Fx::ConsumeTick(s) => {
                let p = s.processed(duration, buf, area);
                Processed {
                    shader: Effect { shader: Box::new(Fx::ConsumeTick(p.shader)) },
                    overflow: p.overflow,
                    buf: p.buf,
                }
            },
            Fx::Sequential(s) => {
                let p = s.processed(duration, buf, area);
                Processed {
                    shader: Effect { shader: Box::new(Fx::Sequential(p.shader)) },
                    overflow: p.overflow,
                    buf: p.buf,
                }
            },
            Fx::Parallel(s) => {
                let p = s.processed(duration, buf, area);
                Processed {
                    shader: Effect { shader: Box::new(Fx::Parallel(p.shader)) },
                    overflow: p.overflow,
                    buf: p.buf,
                }
            },
            Fx::Repeat(s) => {
                let p = s.processed(duration, buf, area);
                Processed {
                    shader: Effect { shader: Box::new(Fx::Repeat(p.shader)) },
                    overflow: p.overflow,
                    buf: p.buf,
                }
            },
            Fx::PingPong(s) => {
                let p = s.processed(duration, buf, area);
                Processed {
                    shader: Effect { shader: Box::new(Fx::PingPong(p.shader)) },
                    overflow: p.overflow,
                    buf: p.buf,
                }
            },
            Fx::Prolong(s) => {
                let p = s.processed(duration, buf, area);
                Processed {
                    shader: Effect { shader: Box::new(Fx::Prolong(p.shader)) },
                    overflow: p.overflow,
                    buf: p.buf,
                }
            },
            Fx::NeverComplete(s) => {
                let p = s.processed(duration, buf, area);
                Processed {
                    shader: Effect { shader: Box::new(Fx::NeverComplete(p.shader)) },
                    overflow: p.overflow,
                    buf: p.buf,
                }
            },
            Fx::Temporary(s) => {
                let p = s.processed(duration, buf, area);
                Processed {
                    shader: Effect { shader: Box::new(Fx::Temporary(p.shader)) },
                    overflow: p.overflow,
                    buf: p.buf,
                }
            },
        }
    }

    /// The effect, the overflow of the last call and the grid after one call
    /// of `process` for each of `ticks`, in order.
    pub open spec fn fed(&self, ticks: Seq<Duration>, buf: Buffer, area: Rect) -> Processed<Self>
        decreases ticks.len(),
    {
        if ticks.len() == 0 {
            Processed { shader: *self, overflow: None, buf }
        } else {
            let so_far = self.fed(ticks.drop_last(), buf, area);
            so_far.shader.processed(ticks.last(), so_far.buf, area)
        }
    }

    /// The effect after `reset`.
    pub open spec fn rewound(&self) -> Self
        decreases self, 1int,
    {
        match *self.shader {
            Fx::Shader(s) => Effect { shader: Box::new(Fx::Shader(s.rewound())) },
            Fx::Sleep(s) => Effect { shader: Box::new(Fx::Sleep(s.rewound())) },
            Fx::ConsumeTick(s) => Effect { shader: Box::new(Fx::ConsumeTick(s.rewound())) },
            Fx::Sequential(s) => Effect { shader: Box::new(Fx::Sequential(s.rewound())) },
            Fx::Parallel(s) => Effect { shader: Box::new(Fx::Parallel(s.rewound())) },
            Fx::Repeat(s) => Effect { shader: Box::new(Fx::Repeat(s.rewound())) },
            Fx::PingPong(s) => Effect { shader: Box::new(Fx::PingPong(s.rewound())) },
            Fx::Prolong(s) => Effect { shader: Box::new(Fx::Prolong(s.rewound())) },
            Fx::NeverComplete(s) => Effect { shader: Box::new(Fx::NeverComplete(s.rewound())) },
            Fx::Temporary(s) => Effect { shader: Box::new(Fx::Temporary(s.rewound())) },
        }
    }

    /// The effect after `reverse`.
    pub open spec fn turned(&self) -> Self
        decreases self, 1int,
    {
        match *self.shader {
            Fx::Shader(s) => Effect { shader: Box::new(Fx::Shader(s.turned())) },
            Fx::Sleep(s) => Effect { shader: Box::new(Fx::Sleep(s.turned())) },
            Fx::ConsumeTick(s) => Effect { shader: Box::new(Fx::ConsumeTick(s.turned())) },
            Fx::Sequential(s) => Effect { shader: Box::new(Fx::Sequential(s.turned())) },
            Fx::Parallel(s) => Effect { shader: Box::new(Fx::Parallel(s.turned())) },
            Fx::Repeat(s) => Effect { shader: Box::new(Fx::Repeat(s.turned())) },
            Fx::PingPong(s) => Effect { shader: Box::new(Fx::PingPong(s.turned())) },
            Fx::Prolong(s) => Effect { shader: Box::new(Fx::Prolong(s.turned())) },
            Fx::NeverComplete(s) => Effect { shader: Box::new(Fx::NeverComplete(s.turned())) },
            Fx::Temporary(s) => Effect { shader: Box::new(Fx::Temporary(s.turned())) },
        }
    }

    /// The effect after `set_area`.
    pub open spec fn placed(&self, area: Rect) -> Self
        decreases self, 1int,
    {
        match *self.shader {
            Fx::Shader(s) => Effect { shader: Box::new(Fx::Shader(s.placed(area))) },
            Fx::Sleep(s) => Effect { shader: Box::new(Fx::Sleep(s.placed(area))) },
            Fx::ConsumeTick(s) => Effect { shader: Box::new(Fx::ConsumeTick(s.placed(area))) },
            Fx::Sequential(s) => Effect { shader: Box::new(Fx::Sequential(s.placed(area))) },
            Fx::Parallel(s) => Effect { shader: Box::new(Fx::Parallel(s.placed(area))) },
            Fx::Repeat(s) => Effect { shader: Box::new(Fx::Repeat(s.placed(area))) },
            Fx::PingPong(s) => Effect { shader: Box::new(Fx::PingPong(s.placed(area))) },
            Fx::Prolong(s) => Effect { shader: Box::new(Fx::Prolong(s.placed(area))) },
            Fx::NeverComplete(s) => Effect { shader: Box::new(Fx::NeverComplete(s.placed(area))) },
            Fx::Temporary(s) => Effect { shader: Box::new(Fx::Temporary(s.placed(area))) },
        }
    }

    /// The effect after `set_cell_selection`.
    pub open spec fn selecting(&self, filter: Rc<CellFilter>) -> Self
        decreases self, 1int,
    {
        match *self.shader {
            Fx::Shader(s) => Effect { shader: Box::new(Fx::Shader(s.selecting(filter))) },
            Fx::Sleep(s) => Effect { shader: Box::new(Fx::Sleep(s.selecting(filter))) },
            Fx::ConsumeTick(s) => Effect { shader: Box::new(Fx::ConsumeTick(s.selecting(filter))) },
            Fx::Sequential(s) => Effect { shader: Box::new(Fx::Sequential(s.selecting(filter))) },
            Fx::Parallel(s) => Effect { shader: Box::new(Fx::Parallel(s.selecting(filter))) },
            Fx::Repeat(s) => Effect { shader: Box::new(Fx::Repeat(s.selecting(filter))) },
            Fx::PingPong(s) => Effect { shader: Box::new(Fx::PingPong(s.selecting(filter))) },
            Fx::Prolong(s) => Effect { shader: Box::new(Fx::Prolong(s.selecting(filter))) },
            Fx::NeverComplete(s) => Effect { shader: Box::new(Fx::NeverComplete(s.selecting(filter))) },
            Fx::Temporary(s) => Effect { shader: Box::new(Fx::Temporary(s.selecting(filter))) },
        }
    }

    /// Wraps a custom shader.
    pub fn new(shader: S) -> (effect: Self)
        ensures
            effect == (Effect { shader: Box::new(Fx::Shader(shader)) }),
    {
        Effect { shader: Box::new(Fx::Shader(shader)) }
    }

    /// A copy of this effect that works on `area`.
    pub fn with_area(&self, area: Rect) -> (effect: Self)
        ensures
            effect == self.placed(area),
    {
        let mut cloned = self.clone_effect();
        cloned.set_area(area);
        cloned
    }

    /// A copy of this effect that applies to the cells `mode` selects.
    pub fn with_cell_selection(&self, mode: CellFilter) -> (effect: Self)
        ensures
            effect == self.selecting(Rc::new(mode)),
    {
        let mut cloned = self.clone_effect();
        cloned.set_cell_selection(Rc::new(mode));
        cloned
    }

    /// A copy of this effect that runs the other way.
    pub fn reversed(&self) -> (effect: Self)
        ensures
            effect == self.turned(),
    {
        let mut cloned = self.clone_effect();
        cloned.reverse();
        cloned
    }

    /// A deep copy.
    pub fn clone_effect(&self) -> (copy: Self)
        ensures
            copy == *self,
        decreases self, 1int,
    {
        let shader = match &*self.shader {
            Fx::Shader(s) => Fx::Shader(*s.clone_box()),
            Fx::Sleep(s) => Fx::Sleep(*s),
            Fx::ConsumeTick(s) => Fx::ConsumeTick(*s),
            Fx::Sequential(s) => Fx::Sequential(s.clone_shader()),
            Fx::Parallel(s) => Fx::Parallel(s.clone_shader()),
            Fx::Repeat(s) => Fx::Repeat(s.clone_shader()),
            Fx::PingPong(s) => Fx::PingPong(s.clone_shader()),
            Fx::Prolong(s) => Fx::Prolong(s.clone_shader()),
            Fx::NeverComplete(s) => Fx::NeverComplete(s.clone_shader()),
            Fx::Temporary(s) => Fx::Temporary(s.clone_shader()),
        };
        Effect { shader: Box::new(shader) }
    }

    pub fn name(&self) -> (name: &'static str)
        ensures
            name@ == self.label(),
    {
        match &*self.shader {
            Fx::Shader(s) => s.name(),
            Fx::Sleep(s) => s.name(),
            Fx::ConsumeTick(s) => s.name(),
            Fx::Sequential(s) => s.name(),
            Fx::Parallel(s) => s.name(),
            Fx::Repeat(s) => s.name(),
            Fx::PingPong(s) => s.name(),
            Fx::Prolong(s) => s.name(),
            Fx::NeverComplete(s) => s.name(),
            Fx::Temporary(s) => s.name(),
        }
    }

    pub fn done(&self) -> (done: bool)
        ensures
            done == self.is_done(),
        decreases self, 1int,
    {
        match &*self.shader {
            Fx::Shader(s) => s.done(),
            Fx::Sleep(s) => s.done(),
            Fx::ConsumeTick(s) => s.done(),
            Fx::Sequential(s) => s.done(),
            Fx::Parallel(s) => s.done(),
            Fx::Repeat(s) => s.done(),
            Fx::PingPong(s) => s.done(),
            Fx::Prolong(s) => s.done(),
            Fx::NeverComplete(s) => s.done(),
            Fx::Temporary(s) => s.done(),
        }
    }

    pub fn running(&self) -> (running: bool)
        ensures
            running == !self.is_done(),
    {
        !self.done()
    }

    pub fn area(&self) -> (area: Option<Rect>)
        ensures
            area == self.area_of(),
        decreases self, 1int,
    {
        match &*self.shader {
            Fx::Shader(s) => s.area(),
            Fx::Sleep(s) => s.area(),
            Fx::ConsumeTick(s) => s.area(),
            Fx::Sequential(s) => s.area(),
            Fx::Parallel(s) => s.area(),
            Fx::Repeat(s) => s.area(),
            Fx::PingPong(s) => s.area(),
            Fx::Prolong(s) => s.area(),
            Fx::NeverComplete(s) => s.area(),
            Fx::Temporary(s) => s.area(),
        }
    }

    pub fn cell_selection(&self) -> (filter: Option<Rc<CellFilter>>)
        ensures
            filter == self.selection(),
        decreases self, 1int,
    {
        match &*self.shader {
            Fx::Shader(s) => s.cell_selection(),
            Fx::Sleep(s) => s.cell_selection(),
            Fx::ConsumeTick(s) => s.cell_selection(),
            Fx::Sequential(s) => s.cell_selection(),
            Fx::Parallel(s) => s.cell_selection(),
            Fx::Repeat(s) => s.cell_selection(),
            Fx::PingPong(s) => s.cell_selection(),
            Fx::Prolong(s) => s.cell_selection(),
            Fx::NeverComplete(s) => s.cell_selection(),
            Fx::Temporary(s) => s.cell_selection(),
        }
    }

    /// The effect's declared timing. Advisory: it takes no part in processing.
    pub fn timer(&self) -> (timer: Option<EffectTimer>)
        ensures
            timer == self.timer_of(),
        decreases self, 1int,
    {
        match &*self.shader {
            Fx::Shader(s) => s.timer(),
            Fx::Sleep(s) => s.timer(),
            Fx::ConsumeTick(s) => s.timer(),
            Fx::Sequential(s) => s.timer(),
            Fx::Parallel(s) => s.timer(),
            Fx::Repeat(s) => s.timer(),
            Fx::PingPong(s) => s.timer(),
            Fx::Prolong(s) => s.timer(),
            Fx::NeverComplete(s) => s.timer(),
            Fx::Temporary(s) => s.timer(),
        }
    }

    /// Feeds `duration` to the shader, which draws on `buf` within the effect's
    /// own area, or within `area` where it has none. Returns what the shader
    /// left of the budget.
    pub fn process(&mut self, duration: Duration, buf: &mut Buffer, area: Rect) -> (overflow:
        Option<Duration>)
        ensures
            *final(self) == old(self).processed(duration, *old(buf), area).shader,
            overflow == old(self).processed(duration, *old(buf), area).overflow,
            *final(buf) == old(self).processed(duration, *old(buf), area).buf,
        decreases *old(self), 1int,
    {
        let area = match self.area() {
            Some(own) => own,
            None => area,
        };
        match &mut *self.shader {
            Fx::Shader(s) => s.process(duration, buf, area),
            Fx::Sleep(s) => s.process(duration, buf, area),
            Fx::ConsumeTick(s) => s.process(duration, buf, area),
            Fx::Sequential(s) => s.process(duration, buf, area),
            Fx::Parallel(s) => s.process(duration, buf, area),
            Fx::Repeat(s) => s.process(duration, buf, area),
            Fx::PingPong(s) => s.process(duration, buf, area),
            Fx::Prolong(s) => s.process(duration, buf, area),
            Fx::NeverComplete(s) => s.process(duration, buf, area),
            Fx::Temporary(s) => s.process(duration, buf, area),
        }
    }

    /// Rewinds the effect to its initial state.
    pub fn reset(&mut self)
        ensures
            *final(self) == old(self).rewound(),
        decreases *old(self), 1int,
    {
        match &mut *self.shader {
            Fx::Shader(s) => s.reset(),
            Fx::Sleep(s) => s.reset(),
            Fx::ConsumeTick(s) => s.reset(),
            Fx::Sequential(s) => s.reset(),
            Fx::Parallel(s) => s.reset(),
            Fx::Repeat(s) => s.reset(),
            Fx::PingPong(s) => s.reset(),
            Fx::Prolong(s) => s.reset(),
            Fx::NeverComplete(s) => s.reset(),
            Fx::Temporary(s) => s.reset(),
        }
    }

    pub fn reverse(&mut self)
        ensures
            *final(self) == old(self).turned(),
        decreases *old(self), 1int,
    {
        match &mut *self.shader {
            Fx::Shader(s) => s.reverse(),
            Fx::Sleep(s) => s.reverse(),
            Fx::ConsumeTick(s) => s.reverse(),
            Fx::Sequential(s) => s.reverse(),
            Fx::Parallel(s) => s.reverse(),
            Fx::Repeat(s) => s.reverse(),
            Fx::PingPong(s) => s.reverse(),
            Fx::Prolong(s) => s.reverse(),
            Fx::NeverComplete(s) => s.reverse(),
            Fx::Temporary(s) => s.reverse(),
        }
    }

    pub fn set_area(&mut self, area: Rect)
        ensures
            *final(self) == old(self).placed(area),
        decreases *old(self), 1int,
    {
        match &mut *self.shader {
            Fx::Shader(s) => s.set_area(area),
            Fx::Sleep(s) => s.set_area(area),
            Fx::ConsumeTick(s) => s.set_area(area),
            Fx::Sequential(s) => s.set_area(area),
            Fx::Parallel(s) => s.set_area(area),
            Fx::Repeat(s) => s.set_area(area),
            Fx::PingPong(s) => s.set_area(area),
            Fx::Prolong(s) => s.set_area(area),
            Fx::NeverComplete(s) => s.set_area(area),
            Fx::Temporary(s) => s.set_area(area),
        }
    }

    pub fn set_cell_selection(&mut self, filter: Rc<CellFilter>)
        ensures
            *final(self) == old(self).selecting(filter),
        decreases *old(self), 1int,
    {
        match &mut *self.shader {
            Fx::Shader(s) => s.set_cell_selection(filter),
            Fx::Sleep(s) => s.set_cell_selection(filter),
            Fx::ConsumeTick(s) => s.set_cell_selection(filter),
            Fx::Sequential(s) => s.set_cell_selection(filter),
            Fx::Parallel(s) => s.set_cell_selection(filter),
            Fx::Repeat(s) => s.set_cell_selection(filter),
            Fx::PingPong(s) => s.set_cell_selection(filter),
            Fx::Prolong(s) => s.set_cell_selection(filter),
            Fx::NeverComplete(s) => s.set_cell_selection(filter),
            Fx::Temporary(s) => s.set_cell_selection(filter),
        }
    }
}

impl<S: Shader> Clone for Effect<S> {
    fn clone(&self) -> (copy: Self)
        ensures
            copy == *self,
    {
        self.clone_effect()
    }
}

/// Feeding one more tick is one more call on what the ticks before it left.
pub proof fn lemma_fed_one_more<S: Shader>(
    effect: Effect<S>,
    ticks: Seq<Duration>,
    buf: Buffer,
    area: Rect,
)
    requires
        ticks.len() > 0,
    ensures
        effect.fed(ticks, buf, area) == effect.fed(ticks.drop_last(), buf, area).shader.processed(
            ticks.last(),
            effect.fed(ticks.drop_last(), buf, area).buf,
            area,
        ),
{
}

/// Turns a shader into the effect that owns it.
pub trait IntoEffect<S> {
    spec fn as_effect(self) -> Effect<S>;

    fn into_effect(self) -> (effect: Effect<S>)
        ensures
            effect == self.as_effect(),
    ;
}

} // verus!
