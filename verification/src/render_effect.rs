//! Rendering an effect onto a grid for one frame.

use crate::duration::Duration;
use crate::effect::Effect;
use crate::geometry::Rect;
use crate::shader::Shader;
use ratatui::buffer::Buffer;
use vstd::prelude::*;

verus! {

/// Something effects can be rendered on.
pub trait EffectRenderer<T> {
    /// What rendering leaves behind: the effect and the surface afterwards.
    spec fn rendered(&self, effect: T, area: Rect, last_tick: Duration) -> (T, Self) where
        Self: Sized,
    ;

    /// Advances `effect` by the time the last frame took and lets it draw
    /// within `area`.
    fn render_effect(&mut self, effect: &mut T, area: Rect, last_tick: Duration) where Self: Sized
        ensures
            (*final(effect), *final(self)) == old(self).rendered(*old(effect), area, last_tick),
    ;
}

impl<S: Shader> EffectRenderer<Effect<S>> for Buffer {
    open spec fn rendered(&self, effect: Effect<S>, area: Rect, last_tick: Duration) -> (
        Effect<S>,
        Self,
    ) {
        let p = effect.processed(last_tick, *self, area);
        (p.shader, p.buf)
    }

    fn render_effect(&mut self, effect: &mut Effect<S>, area: Rect, last_tick: Duration) {
        render_effect(effect, self, area, last_tick);
    }
}

/// Processes `effect` for one frame; what is left of the tick is dropped.
pub fn render_effect<S: Shader>(
    effect: &mut Effect<S>,
    buf: &mut Buffer,
    area: Rect,
    last_tick: Duration,
)
    ensures
        *final(effect) == old(effect).processed(last_tick, *old(buf), area).shader,
        *final(buf) == old(effect).processed(last_tick, *old(buf), area).buf,
{
    effect.process(last_tick, buf, area);
}

} // verus!
