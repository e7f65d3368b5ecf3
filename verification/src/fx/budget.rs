//! No built-in shader hands back more time than it was given.

use crate::duration::Duration;
use crate::effect::{area_or, Effect, Fx};
use crate::fx::containers::{least_overflow, next_index, EffectList};
use crate::fx::prolong::ProlongPosition;
use crate::fx::repeat::RepeatMode;
use crate::geometry::Rect;
use crate::shader::Shader;
use ratatui::buffer::Buffer;
use vstd::prelude::*;

verus! {

/// Whether `overflow` is at most `budget`.
pub open spec fn within(overflow: Option<Duration>, budget: Duration) -> bool {
    overflow matches Some(left) ==> left.milliseconds <= budget.milliseconds
}

/// The overflow of an effect made of built-in shaders never exceeds its
/// budget. In particular the sum that a repetition reports when it reaches its
/// cap is the exact sum, never the capped one.
pub proof fn lemma_overflow_within_budget<S: Shader>(
    effect: Effect<S>,
    duration: Duration,
    buf: Buffer,
    area: Rect,
)
    requires
        effect.is_built_in(),
    ensures
        within(effect.processed(duration, buf, area).overflow, duration),
    decreases effect, 2int,
{
    let area = area_or(effect.area_of(), area);
    match *effect.shader {
        Fx::Sequential(s) => lemma_sequence_within_budget(
            s.effects,
            s.current as nat,
            s.current,
            duration,
            buf,
            area,
        ),
        Fx::Parallel(s) => lemma_group_within_budget(
            s.effects,
            duration,
            Some(duration),
            duration,
            buf,
            area,
        ),
        Fx::Repeat(s) => {
            match s.mode {
                RepeatMode::Duration(_) => {},
                _ => lemma_overflow_within_budget(s.fx, duration, buf, area),
            }
        },
        Fx::PingPong(s) => {
            if s.is_reversing {
                lemma_overflow_within_budget(s.back, duration, buf, area);
            } else {
                lemma_overflow_within_budget(s.fx, duration, buf, area);
                let p = s.fx.processed(duration, buf, area);
                match p.overflow {
                    Some(left) => lemma_overflow_within_budget(s.back, left, p.buf, area),
                    None => {},
                }
            }
        },
        Fx::Prolong(s) => {
            match s.position {
                ProlongPosition::Start => {
                    let left = match s.timer.overflow(duration) {
                        Some(left) => left,
                        None => Duration { milliseconds: 0 },
                    };
                    lemma_overflow_within_budget(s.inner, left, buf, area);
                },
                ProlongPosition::End => lemma_overflow_within_budget(s.inner, duration, buf, area),
            }
        },
        _ => {},
    }
}

pub proof fn lemma_sequence_within_budget<S: Shader>(
    effects: EffectList<S>,
    skip: nat,
    current: usize,
    budget: Duration,
    buf: Buffer,
    area: Rect,
)
    requires
        effects.all_built_in(),
    ensures
        within(effects.sequenced(skip, current, budget, buf, area).overflow, budget),
    decreases effects, 1int,
{
    match effects {
        EffectList::Nil => {},
        EffectList::Cons(head, tail) => {
            if skip > 0 {
                lemma_sequence_within_budget(*tail, (skip - 1) as nat, current, budget, buf, area);
            } else {
                let head_area = area_or(head.area_of(), area);
                lemma_overflow_within_budget(head, budget, buf, head_area);
                let p = head.processed(budget, buf, head_area);
                match p.overflow {
                    Some(left) => lemma_sequence_within_budget(
                        *tail,
                        0,
                        next_index(current),
                        left,
                        p.buf,
                        area,
                    ),
                    None => {},
                }
            }
        },
    }
}

pub proof fn lemma_group_within_budget<S: Shader>(
    effects: EffectList<S>,
    duration: Duration,
    so_far: Option<Duration>,
    bound: Duration,
    buf: Buffer,
    area: Rect,
)
    requires
        effects.all_built_in(),
        within(so_far, bound),
    ensures
        within(effects.paralleled(duration, so_far, buf, area).overflow, bound),
    decreases effects, 1int,
{
    match effects {
        EffectList::Nil => {},
        EffectList::Cons(head, tail) => {
            if head.is_done() {
                lemma_group_within_budget(*tail, duration, so_far, bound, buf, area);
            } else {
                let head_area = area_or(head.area_of(), area);
                let p = head.processed(duration, buf, head_area);
                lemma_group_within_budget(
                    *tail,
                    duration,
                    least_overflow(so_far, p.overflow),
                    bound,
                    p.buf,
                    area,
                );
            }
        },
    }
}

} // verus!
