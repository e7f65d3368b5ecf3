//! The built-in shaders and the functions that compose them.

pub mod budget;
pub mod consume_tick;
pub mod containers;
pub mod direction;
pub mod glitch;
pub mod lifecycle;
pub mod never_complete;
pub mod ping_pong;
pub mod prolong;
pub mod repeat;
pub mod sleep;
pub mod temporary;

use crate::cell_filter::CellFilter;
use crate::duration::Duration;
use crate::effect::{Effect, Fx, IntoEffect};
use crate::effect_timer::EffectTimer;
use crate::fx::consume_tick::ConsumeTick;
use crate::fx::containers::{EffectList, ParallelEffect, SequentialEffect};
use crate::fx::never_complete::NeverComplete;
use crate::fx::ping_pong::PingPong;
use crate::fx::prolong::{Prolong, ProlongPosition};
use crate::fx::repeat::{Repeat, RepeatMode};
use crate::fx::sleep::{fresh_timer, Sleep};
use crate::interpolation::Interpolation;
use crate::fx::temporary::{IntoTemporaryEffect, TemporaryEffect};
use crate::shader::Shader;
use std::rc::Rc;
use vstd::prelude::*;

verus! {

impl<S: Shader> IntoEffect<S> for Sleep {
    open spec fn as_effect(self) -> Effect<S> {
        Effect { shader: Box::new(Fx::Sleep(self)) }
    }

    fn into_effect(self) -> (effect: Effect<S>) {
        Effect { shader: Box::new(Fx::Sleep(self)) }
    }
}

impl<S: Shader> IntoEffect<S> for ConsumeTick {
    open spec fn as_effect(self) -> Effect<S> {
        Effect { shader: Box::new(Fx::ConsumeTick(self)) }
    }

    fn into_effect(self) -> (effect: Effect<S>) {
        Effect { shader: Box::new(Fx::ConsumeTick(self)) }
    }
}

impl<S: Shader> IntoEffect<S> for SequentialEffect<S> {
    open spec fn as_effect(self) -> Effect<S> {
        Effect { shader: Box::new(Fx::Sequential(self)) }
    }

    fn into_effect(self) -> (effect: Effect<S>) {
        Effect { shader: Box::new(Fx::Sequential(self)) }
    }
}

impl<S: Shader> IntoEffect<S> for ParallelEffect<S> {
    open spec fn as_effect(self) -> Effect<S> {
        Effect { shader: Box::new(Fx::Parallel(self)) }
    }

    fn into_effect(self) -> (effect: Effect<S>) {
        Effect { shader: Box::new(Fx::Parallel(self)) }
    }
}

impl<S: Shader> IntoEffect<S> for Repeat<S> {
    open spec fn as_effect(self) -> Effect<S> {
        Effect { shader: Box::new(Fx::Repeat(self)) }
    }

    fn into_effect(self) -> (effect: Effect<S>) {
        Effect { shader: Box::new(Fx::Repeat(self)) }
    }
}

impl<S: Shader> IntoEffect<S> for PingPong<S> {
    open spec fn as_effect(self) -> Effect<S> {
        Effect { shader: Box::new(Fx::PingPong(self)) }
    }

    fn into_effect(self) -> (effect: Effect<S>) {
        Effect { shader: Box::new(Fx::PingPong(self)) }
    }
}

impl<S: Shader> IntoEffect<S> for Prolong<S> {
    open spec fn as_effect(self) -> Effect<S> {
        Effect { shader: Box::new(Fx::Prolong(self)) }
    }

    fn into_effect(self) -> (effect: Effect<S>) {
        Effect { shader: Box::new(Fx::Prolong(self)) }
    }
}

impl<S: Shader> IntoEffect<S> for NeverComplete<S> {
    open spec fn as_effect(self) -> Effect<S> {
        Effect { shader: Box::new(Fx::NeverComplete(self)) }
    }

    fn into_effect(self) -> (effect: Effect<S>) {
        Effect { shader: Box::new(Fx::NeverComplete(self)) }
    }
}

impl<S: Shader> IntoEffect<S> for TemporaryEffect<S> {
    open spec fn as_effect(self) -> Effect<S> {
        Effect { shader: Box::new(Fx::Temporary(self)) }
    }

    fn into_effect(self) -> (effect: Effect<S>) {
        Effect { shader: Box::new(Fx::Temporary(self)) }
    }
}

impl<S: Shader> IntoTemporaryEffect<S> for Effect<S> {
    open spec fn capped(self, duration: Duration) -> Effect<S> {
        Effect {
            shader: Box::new(
                Fx::Temporary(
                    TemporaryEffect {
                        effect: self,
                        timer: fresh_timer(duration, Interpolation::Linear),
                    },
                ),
            ),
        }
    }

    fn with_duration(self, duration: Duration) -> (effect: Effect<S>) {
        TemporaryEffect::new(self, duration).into_effect()
    }
}

/// Runs the effects one after the other, starting with the first.
pub fn sequence<S: Shader>(effects: &[Effect<S>]) -> (effect: Effect<S>)
    ensures
        *effect.shader matches Fx::Sequential(s) && s.effects.seq() == effects@ && s.current == 0,
{
    SequentialEffect { effects: EffectList::from_slice(effects), current: 0 }.into_effect()
}

/// Runs the effects side by side.
pub fn parallel<S: Shader>(effects: &[Effect<S>]) -> (effect: Effect<S>)
    ensures
        *effect.shader matches Fx::Parallel(s) && s.effects.seq() == effects@,
{
    ParallelEffect { effects: EffectList::from_slice(effects) }.into_effect()
}

/// Repeats the effect as `mode` says.
pub fn repeat<S: Shader>(effect: Effect<S>, mode: RepeatMode) -> (repeated: Effect<S>)
    ensures
        repeated == (Effect {
            shader: Box::new(
                Fx::Repeat(
                    Repeat { fx: effect, fresh: effect.rewound(), mode, original_mode: mode },
                ),
            ),
        }),
{
    Repeat::new(effect, mode).into_effect()
}

/// Repeats the effect without end.
pub fn repeating<S: Shader>(effect: Effect<S>) -> (repeated: Effect<S>)
    ensures
        repeated == (Effect {
            shader: Box::new(
                Fx::Repeat(
                    Repeat {
                        fx: effect,
                        fresh: effect.rewound(),
                        mode: RepeatMode::Forever,
                        original_mode: RepeatMode::Forever,
                    },
                ),
            ),
        }),
{
    repeat(effect, RepeatMode::Forever)
}

/// Plays the effect forward and then back.
pub fn ping_pong<S: Shader>(effect: Effect<S>) -> (bounced: Effect<S>)
    ensures
        bounced == (Effect {
            shader: Box::new(
                Fx::PingPong(
                    PingPong {
                        fx: effect,
                        back: effect.rewound().turned(),
                        is_reversing: false,
                        strategy: Rc::new(CellFilter::All),
                    },
                ),
            ),
        }),
{
    PingPong::new(effect).into_effect()
}

/// Lets `duration` pass without drawing.
pub fn sleep<S: Shader, T: Into<EffectTimer>>(duration: T) -> (effect: Effect<S>)
    ensures
        *effect.shader matches Fx::Sleep(s) && call_ensures(T::into, (duration,), s.timer),
{
    Sleep::new(duration).into_effect()
}

/// Runs `effect` once `duration` has passed.
pub fn delay<S: Shader, T: Into<EffectTimer>>(duration: T, effect: Effect<S>) -> (delayed: Effect<
    S,
>)
    ensures
        *delayed.shader matches Fx::Sequential(s) && ({
            &&& s.current == 0
            &&& s.effects matches EffectList::Cons(first, rest)
            &&& *rest == EffectList::Cons(effect, Box::new(EffectList::Nil))
            &&& *first.shader matches Fx::Sleep(sl)
            &&& call_ensures(T::into, (duration,), sl.timer)
        }),
{
    let first: Effect<S> = sleep(duration);
    SequentialEffect {
        effects: EffectList::Cons(
            first,
            Box::new(EffectList::Cons(effect, Box::new(EffectList::Nil))),
        ),
        current: 0,
    }.into_effect()
}

/// Holds `effect` back until `duration` has passed.
pub fn prolong_start<S: Shader, T: Into<EffectTimer>>(duration: T, effect: Effect<S>) -> (prolonged:
    Effect<S>)
    ensures
        *prolonged.shader matches Fx::Prolong(p) && p.inner == effect && p.position
            == ProlongPosition::Start && call_ensures(T::into, (duration,), p.timer),
{
    Prolong::new(ProlongPosition::Start, duration.into(), effect).into_effect()
}

/// Keeps `effect` going for `duration` after it has completed.
pub fn prolong_end<S: Shader, T: Into<EffectTimer>>(duration: T, effect: Effect<S>) -> (prolonged:
    Effect<S>)
    ensures
        *prolonged.shader matches Fx::Prolong(p) && p.inner == effect && p.position
            == ProlongPosition::End && call_ensures(T::into, (duration,), p.timer),
{
    Prolong::new(ProlongPosition::End, duration.into(), effect).into_effect()
}

/// Takes whatever is left of one tick.
pub fn consume_tick<S: Shader>() -> (effect: Effect<S>)
    ensures
        effect == (Effect::<S> {
            shader: Box::new(Fx::ConsumeTick(ConsumeTick { has_consumed_tick: false })),
        }),
{
    ConsumeTick::default().into_effect()
}

/// Keeps `effect` from ever completing.
pub fn never_complete<S: Shader>(effect: Effect<S>) -> (held: Effect<S>)
    ensures
        held == (Effect { shader: Box::new(Fx::NeverComplete(NeverComplete { effect })) }),
{
    NeverComplete::new(effect).into_effect()
}

/// Ends `effect` after `duration` at the latest.
pub fn with_duration<S: Shader>(duration: Duration, effect: Effect<S>) -> (bounded: Effect<S>)
    ensures
        bounded == effect.capped(duration),
{
    effect.with_duration(duration)
}

/// Keeps `effect` from completing until `duration` has passed.
pub fn timed_never_complete<S: Shader>(duration: Duration, effect: Effect<S>) -> (bounded: Effect<
    S,
>)
    ensures
        bounded == (Effect::<S> {
            shader: Box::new(Fx::NeverComplete(NeverComplete { effect })),
        }).capped(duration),
{
    TemporaryEffect::new(never_complete(effect), duration).into_effect()
}

} // verus!
