//! What resetting and reversing do to effects built from the built-in shaders.

use crate::duration::Duration;
use crate::effect::{Effect, Fx};
use crate::effect_timer::EffectTimer;
use crate::fx::containers::EffectList;
use crate::geometry::Rect;
use crate::shader::Shader;
use ratatui::buffer::Buffer;
use vstd::prelude::*;

verus! {

impl<S: Shader> Effect<S> {
    /// Whether the effect is made of built-in shaders only.
    pub open spec fn is_built_in(&self) -> bool
        decreases self, 1int,
    {
        match *self.shader {
            Fx::Shader(_) => false,
            Fx::Sleep(_) => true,
            Fx::ConsumeTick(_) => true,
            Fx::Sequential(s) => s.effects.all_built_in(),
            Fx::Parallel(s) => s.effects.all_built_in(),
            Fx::Repeat(s) => s.fx.is_built_in() && s.fresh.is_built_in(),
            Fx::PingPong(s) => s.fx.is_built_in() && s.back.is_built_in(),
            Fx::Prolong(s) => s.inner.is_built_in(),
            Fx::NeverComplete(s) => s.effect.is_built_in(),
            Fx::Temporary(s) => s.effect.is_built_in(),
        }
    }
}

impl<S: Shader> EffectList<S> {
    pub open spec fn all_built_in(self) -> bool
        decreases self, 0int,
    {
        match self {
            EffectList::Nil => true,
            EffectList::Cons(head, tail) => head.is_built_in() && tail.all_built_in(),
        }
    }
}

/// Reversing twice changes nothing, and a reversed effect is still built in.
pub proof fn lemma_reverse_is_involution<S: Shader>(effect: Effect<S>)
    requires
        effect.is_built_in(),
    ensures
        effect.turned().turned() == effect,
        effect.turned().is_built_in(),
    decreases effect, 1int,
{
    match *effect.shader {
        Fx::Sequential(s) => lemma_reverse_all_is_involution(s.effects),
        Fx::Parallel(s) => lemma_reverse_all_is_involution(s.effects),
        Fx::PingPong(s) => {
            lemma_reverse_is_involution(s.fx);
            lemma_reverse_is_involution(s.back);
        },
        Fx::NeverComplete(s) => lemma_reverse_is_involution(s.effect),
        _ => {},
    }
}

pub proof fn lemma_reverse_all_is_involution<S: Shader>(effects: EffectList<S>)
    requires
        effects.all_built_in(),
    ensures
        effects.turned().turned() == effects,
        effects.turned().all_built_in(),
    decreases effects, 0int,
{
    match effects {
        EffectList::Nil => {},
        EffectList::Cons(head, tail) => {
            lemma_reverse_is_involution(head);
            lemma_reverse_all_is_involution(*tail);
        },
    }
}

/// The duration an optional timer declares.
pub open spec fn declared(timer: Option<EffectTimer>) -> Option<Duration> {
    match timer {
        Some(timer) => Some(timer.total),
        None => None,
    }
}

/// Reversing an effect leaves the duration it declares untouched.
pub proof fn lemma_reverse_keeps_duration<S: Shader>(effect: Effect<S>)
    requires
        effect.is_built_in(),
    ensures
        declared(effect.turned().timer_of()) == declared(effect.timer_of()),
    decreases effect, 1int,
{
    match *effect.shader {
        Fx::Sequential(s) => lemma_reverse_keeps_durations(s.effects),
        Fx::Parallel(s) => lemma_reverse_keeps_durations(s.effects),
        Fx::PingPong(s) => lemma_reverse_keeps_duration(s.fx),
        Fx::NeverComplete(s) => lemma_reverse_keeps_duration(s.effect),
        _ => {},
    }
}

pub proof fn lemma_reverse_keeps_durations<S: Shader>(effects: EffectList<S>)
    requires
        effects.all_built_in(),
    ensures
        effects.turned().total_time() == effects.total_time(),
        effects.turned().longest_time() == effects.longest_time(),
    decreases effects, 0int,
{
    match effects {
        EffectList::Nil => {},
        EffectList::Cons(head, tail) => {
            lemma_reverse_keeps_duration(head);
            lemma_reverse_keeps_durations(*tail);
        },
    }
}

/// Resetting and reversing can be done in either order.
pub proof fn lemma_reset_and_reverse_commute<S: Shader>(effect: Effect<S>)
    requires
        effect.is_built_in(),
    ensures
        effect.rewound().turned() == effect.turned().rewound(),
        effect.rewound().is_built_in(),
    decreases effect, 1int,
{
    match *effect.shader {
        Fx::Sequential(s) => lemma_reset_and_reverse_all_commute(s.effects),
        Fx::Parallel(s) => lemma_reset_and_reverse_all_commute(s.effects),
        Fx::PingPong(s) => {
            lemma_reset_and_reverse_commute(s.fx);
            lemma_reset_and_reverse_commute(s.back);
        },
        Fx::Prolong(s) => lemma_reset_and_reverse_commute(s.inner),
        Fx::NeverComplete(s) => lemma_reset_and_reverse_commute(s.effect),
        Fx::Temporary(s) => lemma_reset_and_reverse_commute(s.effect),
        _ => {},
    }
}

pub proof fn lemma_reset_and_reverse_all_commute<S: Shader>(effects: EffectList<S>)
    requires
        effects.all_built_in(),
    ensures
        effects.rewound().turned() == effects.turned().rewound(),
        effects.rewound().all_built_in(),
    decreases effects, 0int,
{
    match effects {
        EffectList::Nil => {},
        EffectList::Cons(head, tail) => {
            lemma_reset_and_reverse_commute(head);
            lemma_reset_and_reverse_all_commute(*tail);
        },
    }
}

/// Resetting a second time changes nothing.
pub proof fn lemma_reset_is_idempotent<S: Shader>(effect: Effect<S>)
    requires
        effect.is_built_in(),
    ensures
        effect.rewound().rewound() == effect.rewound(),
    decreases effect, 1int,
{
    match *effect.shader {
        Fx::Sequential(s) => lemma_reset_all_is_idempotent(s.effects),
        Fx::Parallel(s) => lemma_reset_all_is_idempotent(s.effects),
        Fx::PingPong(s) => {
            lemma_reset_is_idempotent(s.fx);
            lemma_reset_is_idempotent(s.back);
        },
        Fx::Prolong(s) => lemma_reset_is_idempotent(s.inner),
        Fx::NeverComplete(s) => lemma_reset_is_idempotent(s.effect),
        Fx::Temporary(s) => lemma_reset_is_idempotent(s.effect),
        _ => {},
    }
}

pub proof fn lemma_reset_all_is_idempotent<S: Shader>(effects: EffectList<S>)
    requires
        effects.all_built_in(),
    ensures
        effects.rewound().rewound() == effects.rewound(),
    decreases effects, 0int,
{
    match effects {
        EffectList::Nil => {},
        EffectList::Cons(head, tail) => {
            lemma_reset_is_idempotent(head);
            lemma_reset_all_is_idempotent(*tail);
        },
    }
}

/// Processing changes no shader into another: what was built in stays built in.
pub proof fn lemma_processing_keeps_built_in<S: Shader>(
    effect: Effect<S>,
    duration: Duration,
    buf: Buffer,
    area: Rect,
)
    requires
        effect.is_built_in(),
    ensures
        effect.processed(duration, buf, area).shader.is_built_in(),
        effect.processed(duration, buf, area).buf == buf,
    decreases effect, 2int,
{
    let area = crate::effect::area_or(effect.area_of(), area);
    match *effect.shader {
        Fx::Sequential(s) => lemma_sequence_keeps_built_in(
            s.effects,
            s.current as nat,
            s.current,
            duration,
            buf,
            area,
        ),
        Fx::Parallel(s) => lemma_group_keeps_built_in(s.effects, duration, Some(duration), buf, area),
        Fx::Repeat(s) => {
            match s.mode {
                crate::fx::repeat::RepeatMode::Duration(cap) => {
                    let budget = crate::fx::repeat::shorter(duration, cap);
                    lemma_processing_keeps_built_in(s.fx, budget, buf, area);
                    match s.fx.processed(budget, buf, area).overflow {
                        Some(left) => lemma_restart_keeps_built_in(s.fresh, left, buf, area),
                        None => {},
                    }
                },
                _ => lemma_processing_keeps_built_in(s.fx, duration, buf, area),
            }
        },
        Fx::PingPong(s) => {
            if s.is_reversing {
                lemma_processing_keeps_built_in(s.back, duration, buf, area);
            } else {
                lemma_processing_keeps_built_in(s.fx, duration, buf, area);
                match s.fx.processed(duration, buf, area).overflow {
                    Some(left) => lemma_processing_keeps_built_in(s.back, left, buf, area),
                    None => {},
                }
            }
        },
        Fx::Prolong(s) => {
            let left = match s.timer.overflow(duration) {
                Some(left) => left,
                None => Duration { milliseconds: 0 },
            };
            match s.position {
                crate::fx::prolong::ProlongPosition::Start => lemma_processing_keeps_built_in(
                    s.inner,
                    left,
                    buf,
                    area,
                ),
                crate::fx::prolong::ProlongPosition::End => lemma_processing_keeps_built_in(
                    s.inner,
                    duration,
                    buf,
                    area,
                ),
            }
        },
        Fx::NeverComplete(s) => lemma_processing_keeps_built_in(s.effect, duration, buf, area),
        Fx::Temporary(s) => lemma_processing_keeps_built_in(
            s.effect,
            duration,
            buf,
            crate::effect::area_or(s.effect.area_of(), area),
        ),
        _ => {},
    }
}

/// New runs of a built-in effect are built in and draw nothing.
pub proof fn lemma_restart_keeps_built_in<S: Shader>(
    fresh: Effect<S>,
    left: Duration,
    buf: Buffer,
    area: Rect,
)
    requires
        fresh.is_built_in(),
    ensures
        crate::fx::repeat::restarted(fresh, left, buf, area).shader.is_built_in(),
        crate::fx::repeat::restarted(fresh, left, buf, area).buf == buf,
    decreases fresh, 3int, left.milliseconds,
{
    if left.milliseconds > 0 {
        lemma_processing_keeps_built_in(fresh, left, buf, area);
        match fresh.processed(left, buf, area).overflow {
            Some(rest) => {
                if rest.milliseconds < left.milliseconds {
                    lemma_restart_keeps_built_in(fresh, rest, buf, area);
                }
            },
            None => {},
        }
    }
}

pub proof fn lemma_sequence_keeps_built_in<S: Shader>(
    effects: EffectList<S>,
    skip: nat,
    current: usize,
    budget: Duration,
    buf: Buffer,
    area: Rect,
)
    requires
        effects.all_built_in(),
    ensures
        effects.sequenced(skip, current, budget, buf, area).effects.all_built_in(),
        effects.sequenced(skip, current, budget, buf, area).buf == buf,
    decreases effects, 1int,
{
    match effects {
        EffectList::Nil => {},
        EffectList::Cons(head, tail) => {
            if skip > 0 {
                lemma_sequence_keeps_built_in(*tail, (skip - 1) as nat, current, budget, buf, area);
            } else {
                let head_area = crate::effect::area_or(head.area_of(), area);
                lemma_processing_keeps_built_in(head, budget, buf, head_area);
                match head.processed(budget, buf, head_area).overflow {
                    Some(left) => lemma_sequence_keeps_built_in(
                        *tail,
                        0,
                        crate::fx::containers::next_index(current),
                        left,
                        buf,
                        area,
                    ),
                    None => {},
                }
            }
        },
    }
}

pub proof fn lemma_group_keeps_built_in<S: Shader>(
    effects: EffectList<S>,
    duration: Duration,
    so_far: Option<Duration>,
    buf: Buffer,
    area: Rect,
)
    requires
        effects.all_built_in(),
    ensures
        effects.paralleled(duration, so_far, buf, area).effects.all_built_in(),
        effects.paralleled(duration, so_far, buf, area).buf == buf,
    decreases effects, 1int,
{
    match effects {
        EffectList::Nil => {},
        EffectList::Cons(head, tail) => {
            if head.is_done() {
                lemma_group_keeps_built_in(*tail, duration, so_far, buf, area);
            } else {
                let head_area = crate::effect::area_or(head.area_of(), area);
                lemma_processing_keeps_built_in(head, duration, buf, head_area);
                lemma_group_keeps_built_in(
                    *tail,
                    duration,
                    crate::fx::containers::least_overflow(
                        so_far,
                        head.processed(duration, buf, head_area).overflow,
                    ),
                    buf,
                    area,
                );
            }
        },
    }
}

/// A reset rewinds an effect to where it started, however far it has been
/// processed: resetting after a step gives the same effect as resetting at once.
/// The built-in shaders draw nothing, so the grid is as it was.
pub proof fn lemma_reset_forgets_progress<S: Shader>(
    effect: Effect<S>,
    duration: Duration,
    buf: Buffer,
    area: Rect,
)
    requires
        effect.is_built_in(),
    ensures
        effect.processed(duration, buf, area).shader.rewound() == effect.rewound(),
        effect.processed(duration, buf, area).buf == buf,
    decreases effect, 2int,
{
    lemma_processing_keeps_built_in(effect, duration, buf, area);
    let area = crate::effect::area_or(effect.area_of(), area);
    match *effect.shader {
        Fx::Sequential(s) => lemma_reset_forgets_sequence(
            s.effects,
            s.current as nat,
            s.current,
            duration,
            buf,
            area,
        ),
        Fx::Parallel(s) => lemma_reset_forgets_group(s.effects, duration, Some(duration), buf, area),
        Fx::PingPong(s) => {
            if s.is_reversing {
                lemma_reset_forgets_progress(s.back, duration, buf, area);
            } else {
                lemma_reset_forgets_progress(s.fx, duration, buf, area);
                match s.fx.processed(duration, buf, area).overflow {
                    Some(left) => lemma_reset_forgets_progress(s.back, left, buf, area),
                    None => {},
                }
            }
        },
        Fx::Prolong(s) => {
            let left = match s.timer.overflow(duration) {
                Some(left) => left,
                None => Duration { milliseconds: 0 },
            };
            match s.position {
                crate::fx::prolong::ProlongPosition::Start => lemma_reset_forgets_progress(
                    s.inner,
                    left,
                    buf,
                    area,
                ),
                crate::fx::prolong::ProlongPosition::End => lemma_reset_forgets_progress(
                    s.inner,
                    duration,
                    buf,
                    area,
                ),
            }
        },
        Fx::NeverComplete(s) => lemma_reset_forgets_progress(s.effect, duration, buf, area),
        Fx::Temporary(s) => lemma_reset_forgets_progress(
            s.effect,
            duration,
            buf,
            crate::effect::area_or(s.effect.area_of(), area),
        ),
        _ => {},
    }
}

pub proof fn lemma_reset_forgets_sequence<S: Shader>(
    effects: EffectList<S>,
    skip: nat,
    current: usize,
    budget: Duration,
    buf: Buffer,
    area: Rect,
)
    requires
        effects.all_built_in(),
    ensures
        effects.sequenced(skip, current, budget, buf, area).effects.rewound() == effects.rewound(),
    decreases effects, 1int,
{
    match effects {
        EffectList::Nil => {},
        EffectList::Cons(head, tail) => {
            if skip > 0 {
                lemma_reset_forgets_sequence(*tail, (skip - 1) as nat, current, budget, buf, area);
            } else {
                let head_area = crate::effect::area_or(head.area_of(), area);
                lemma_reset_forgets_progress(head, budget, buf, head_area);
                match head.processed(budget, buf, head_area).overflow {
                    Some(left) => lemma_reset_forgets_sequence(
                        *tail,
                        0,
                        crate::fx::containers::next_index(current),
                        left,
                        buf,
                        area,
                    ),
                    None => {},
                }
            }
        },
    }
}

pub proof fn lemma_reset_forgets_group<S: Shader>(
    effects: EffectList<S>,
    duration: Duration,
    so_far: Option<Duration>,
    buf: Buffer,
    area: Rect,
)
    requires
        effects.all_built_in(),
    ensures
        effects.paralleled(duration, so_far, buf, area).effects.rewound() == effects.rewound(),
    decreases effects, 1int,
{
    match effects {
        EffectList::Nil => {},
        EffectList::Cons(head, tail) => {
            if head.is_done() {
                lemma_reset_forgets_group(*tail, duration, so_far, buf, area);
            } else {
                let head_area = crate::effect::area_or(head.area_of(), area);
                lemma_reset_forgets_progress(head, duration, buf, head_area);
                lemma_reset_forgets_group(
                    *tail,
                    duration,
                    crate::fx::containers::least_overflow(
                        so_far,
                        head.processed(duration, buf, head_area).overflow,
                    ),
                    buf,
                    area,
                );
            }
        },
    }
}

} // verus!
