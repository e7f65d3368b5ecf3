//! A combinator that plays an effect forward and then back.

use crate::cell_filter::CellFilter;
use crate::duration::Duration;
use crate::effect::{lemma_fed_one_more, Effect, Fx};
use crate::effect_timer::EffectTimer;
use crate::fx::containers::{lemma_sleeping_follows_timer, sleeping, total_ms};
use crate::geometry::Rect;
use crate::shader::{share, Processed, Shader};
use ratatui::buffer::Buffer;
use std::rc::Rc;
use vstd::prelude::*;

verus! {

/// Runs the wrapped effect to its end and then a rewound, reversed copy of
/// it, back to where it started. The whole cycle takes twice the effect's
/// own duration.
pub struct PingPong<S> {
    /// The effect on its way forth.
    pub fx: Effect<S>,
    /// The effect on its way back.
    pub back: Effect<S>,
    pub is_reversing: bool,
    pub strategy: Rc<CellFilter>,
}

impl<S: Shader> PingPong<S> {
    pub open spec fn is_done(&self) -> bool
        decreases self, 0int,
    {
        self.is_reversing && self.back.is_done()
    }

    pub open spec fn label(&self) -> Seq<char> {
        "ping_pong"@
    }

    pub open spec fn area_of(&self) -> Option<Rect>
        decreases self, 0int,
    {
        self.fx.area_of()
    }

    pub open spec fn selection(&self) -> Option<Rc<CellFilter>> {
        Some(self.strategy)
    }

    /// Twice the wrapped effect's declared timing.
    pub open spec fn timer_of(&self) -> Option<EffectTimer>
        decreases self, 0int,
    {
        match self.fx.timer_of() {
            Some(timer) => Some(timer.repeated(2)),
            None => None,
        }
    }

    /// On the way forth the budget goes to the effect. As soon as the effect
    /// completes, by reporting overflow or by being done, the way back
    /// begins, and what the effect left of the budget goes to the reversed
    /// copy within the same call. On the way back the budget goes to the
    /// copy, whose overflow is the ping-pong's.
    pub open spec fn processed(&self, duration: Duration, buf: Buffer, area: Rect) -> Processed<
        Self,
    >
        decreases self, 0int,
    {
        if self.is_reversing {
            let q = self.back.processed(duration, buf, area);
            Processed { shader: PingPong { back: q.shader, ..*self }, overflow: q.overflow, buf: q.buf }
        } else {
            let p = self.fx.processed(duration, buf, area);
            match p.overflow {
                Some(left) => {
                    let q = self.back.processed(left, p.buf, area);
                    Processed {
                        shader: PingPong {
                            fx: p.shader,
                            back: q.shader,
                            is_reversing: true,
                            strategy: self.strategy,
                        },
                        overflow: q.overflow,
                        buf: q.buf,
                    }
                },
                None => Processed {
                    shader: PingPong {
                        fx: p.shader,
                        is_reversing: p.shader.is_done(),
                        ..*self
                    },
                    overflow: None,
                    buf: p.buf,
                },
            }
        }
    }

    /// Back to the initial state: both passes rewound and the way forth ahead.
    pub open spec fn rewound(&self) -> Self
        decreases self, 0int,
    {
        PingPong {
            fx: self.fx.rewound(),
            back: self.back.rewound(),
            is_reversing: false,
            strategy: self.strategy,
        }
    }

    pub open spec fn turned(&self) -> Self
        decreases self, 0int,
    {
        PingPong { fx: self.fx.turned(), back: self.back.turned(), ..*self }
    }

    pub open spec fn placed(&self, area: Rect) -> Self
        decreases self, 0int,
    {
        PingPong { fx: self.fx.placed(area), back: self.back.placed(area), ..*self }
    }

    /// The selection is kept by the combinator itself and not passed on.
    pub open spec fn selecting(&self, filter: Rc<CellFilter>) -> Self {
        PingPong { strategy: filter, ..*self }
    }

    /// The way back is a copy of `fx`, rewound and reversed.
    pub fn new(fx: Effect<S>) -> (shader: Self)
        ensures
            shader == (PingPong {
                fx,
                back: fx.rewound().turned(),
                is_reversing: false,
                strategy: Rc::new(CellFilter::All),
            }),
    {
        let mut back = fx.clone_effect();
        back.reset();
        back.reverse();
        Self { fx, back, is_reversing: false, strategy: Rc::new(CellFilter::All) }
    }

    pub fn clone_shader(&self) -> (copy: Self)
        ensures
            copy == *self,
        decreases self, 0int,
    {
        PingPong {
            fx: self.fx.clone_effect(),
            back: self.back.clone_effect(),
            is_reversing: self.is_reversing,
            strategy: share(&self.strategy),
        }
    }

    pub fn name(&self) -> (name: &'static str)
        ensures
            name@ == self.label(),
    {
        "ping_pong"
    }

    pub fn process(&mut self, duration: Duration, buf: &mut Buffer, area: Rect) -> (overflow:
        Option<Duration>)
        ensures
            *final(self) == old(self).processed(duration, *old(buf), area).shader,
            overflow == old(self).processed(duration, *old(buf), area).overflow,
            *final(buf) == old(self).processed(duration, *old(buf), area).buf,
        decreases *old(self), 0int,
    {
        if self.is_reversing {
            self.back.process(duration, buf, area)
        } else {
            match self.fx.process(duration, buf, area) {
                Some(left) => {
                    self.is_reversing = true;
                    self.back.process(left, buf, area)
                },
                None => {
                    if self.fx.done() {
                        self.is_reversing = true;
                    }
                    None
                },
            }
        }
    }

    /// Done once the way back has been completed too.
    pub fn done(&self) -> (done: bool)
        ensures
            done == self.is_done(),
        decreases self, 0int,
    {
        self.is_reversing && self.back.done()
    }

    pub fn area(&self) -> (area: Option<Rect>)
        ensures
            area == self.area_of(),
        decreases self, 0int,
    {
        self.fx.area()
    }

    pub fn cell_selection(&self) -> (filter: Option<Rc<CellFilter>>)
        ensures
            filter == self.selection(),
    {
        Some(share(&self.strategy))
    }

    pub fn timer(&self) -> (timer: Option<EffectTimer>)
        ensures
            timer == self.timer_of(),
        decreases self, 0int,
    {
        match self.fx.timer() {
            Some(timer) => Some(timer.scaled(2)),
            None => None,
        }
    }

    pub fn reset(&mut self)
        ensures
            *final(self) == old(self).rewound(),
        decreases *old(self), 0int,
    {
        self.fx.reset();
        self.back.reset();
        self.is_reversing = false;
    }

    pub fn reverse(&mut self)
        ensures
            *final(self) == old(self).turned(),
        decreases *old(self), 0int,
    {
        self.fx.reverse();
        self.back.reverse();
    }

    pub fn set_area(&mut self, area: Rect)
        ensures
            *final(self) == old(self).placed(area),
        decreases *old(self), 0int,
    {
        self.fx.set_area(area);
        self.back.set_area(area);
    }

    pub fn set_cell_selection(&mut self, filter: Rc<CellFilter>)
        ensures
            *final(self) == old(self).selecting(filter),
    {
        self.strategy = filter;
    }
}

/// The ping-pong over a timed effect after `elapsed` milliseconds in all: the
/// way forth has had all of them, the way back those beyond the effect's
/// duration.
pub open spec fn bounced<S>(timer: EffectTimer, strategy: Rc<CellFilter>, elapsed: int) -> Effect<
    S,
> {
    let total = timer.total.milliseconds as int;
    let beyond = if elapsed > total {
        elapsed - total
    } else {
        0
    };
    Effect {
        shader: Box::new(
            Fx::PingPong(
                PingPong {
                    fx: sleeping(timer.processed(Duration { milliseconds: elapsed as u32 })),
                    back: sleeping(
                        timer.flipped().processed(Duration { milliseconds: beyond as u32 }),
                    ),
                    is_reversing: elapsed >= total,
                    strategy,
                },
            ),
        ),
    }
}

/// One call on a ping-pong over a timed effect: it moves the ping-pong on by
/// the length of the tick, and reports what the tick holds beyond the end of
/// the way back.
pub proof fn lemma_ping_pong_step<S: Shader>(
    timer: EffectTimer,
    strategy: Rc<CellFilter>,
    elapsed: int,
    tick: Duration,
    buf: Buffer,
    area: Rect,
)
    requires
        timer.remaining == timer.total,
        0 <= elapsed,
        elapsed + tick.milliseconds <= u32::MAX,
    ensures
        ({
            let step = bounced::<S>(timer, strategy, elapsed).processed(tick, buf, area);
            let left = if elapsed < 2 * timer.total.milliseconds {
                2 * timer.total.milliseconds - elapsed
            } else {
                0
            };
            &&& step.shader == bounced::<S>(timer, strategy, elapsed + tick.milliseconds)
            &&& step.overflow == if tick.milliseconds > left {
                Some(Duration { milliseconds: (tick.milliseconds - left) as u32 })
            } else {
                None
            }
            &&& step.buf == buf
        }),
{
    let total = timer.total.milliseconds as int;
    let forth = timer.processed(Duration { milliseconds: elapsed as u32 });
    let beyond = if elapsed > total {
        elapsed - total
    } else {
        0
    };
    let back = timer.flipped().processed(Duration { milliseconds: beyond as u32 });
    lemma_sleeping_follows_timer::<S>(forth, tick, buf, area);
    lemma_sleeping_follows_timer::<S>(forth.processed(tick), tick, buf, area);
    lemma_sleeping_follows_timer::<S>(back, tick, buf, area);
    match forth.overflow(tick) {
        Some(left) => {
            lemma_sleeping_follows_timer::<S>(back, left, buf, area);
        },
        None => {},
    }
    let start = PingPong::<S> {
        fx: sleeping(forth),
        back: sleeping(back),
        is_reversing: elapsed >= total,
        strategy,
    };
    let step = start.processed(tick, buf, area);
    let after = elapsed + tick.milliseconds;
    let forth_after = timer.processed(Duration { milliseconds: after as u32 });
    let beyond_after = if after > total {
        after - total
    } else {
        0
    };
    let back_after = timer.flipped().processed(Duration { milliseconds: beyond_after as u32 });
    assert(forth.processed(tick) == forth_after);
    if elapsed >= total {
        assert(back.processed(tick) == back_after);
    } else {
        match forth.overflow(tick) {
            Some(left) => {
                assert(back.processed(left) == back_after);
            },
            None => {
                assert(back == back_after);
            },
        }
    }
    assert(step.shader == (PingPong::<S> {
        fx: sleeping(forth_after),
        back: sleeping(back_after),
        is_reversing: after >= total,
        strategy,
    }));
}

/// A full cycle of a ping-pong over a timed effect takes exactly twice the
/// effect's duration, however the time is cut into ticks.
///
/// After ticks that add up to `elapsed` the ping-pong is done exactly when
/// `elapsed` has reached twice the duration. When the ticks add up to the
/// duration, the effect stands at its end and the way back has not moved.
/// When they add up to twice the duration, the way back stands where the
/// effect started: the same progress, the same declared duration.
pub proof fn lemma_ping_pong_cycle<S: Shader>(
    timer: EffectTimer,
    ticks: Seq<Duration>,
    buf: Buffer,
    area: Rect,
)
    requires
        timer.remaining == timer.total,
        timer.total.milliseconds > 0,
        total_ms(ticks) <= u32::MAX,
    ensures
        ({
            let start = Effect::<S> { shader: Box::new(Fx::PingPong(PingPong {
                fx: sleeping(timer),
                back: sleeping::<S>(timer).rewound().turned(),
                is_reversing: false,
                strategy: Rc::new(CellFilter::All),
            })) };
            let elapsed = total_ms(ticks);
            let total = timer.total.milliseconds as int;
            let end = start.fed(ticks, buf, area);
            &&& end.shader == bounced::<S>(timer, Rc::new(CellFilter::All), elapsed)
            &&& end.buf == buf
            &&& end.shader.is_done() <==> elapsed >= 2 * total
            &&& elapsed == total ==> {
                &&& end.shader == bounced::<S>(timer, Rc::new(CellFilter::All), total)
                &&& timer.processed(timer.total).is_done()
                &&& !end.shader.is_done()
            }
            &&& elapsed == 2 * total ==> {
                let back = timer.flipped().processed(timer.total);
                &&& back.raw_progress() == timer.raw_progress()
                &&& back.total == timer.total
                &&& back.is_done()
            }
        }),
    decreases ticks.len(),
{
    let strategy = Rc::new(CellFilter::All);
    let start = Effect::<S> { shader: Box::new(Fx::PingPong(PingPong {
        fx: sleeping(timer),
        back: sleeping::<S>(timer).rewound().turned(),
        is_reversing: false,
        strategy,
    })) };
    lemma_sleeping_follows_timer::<S>(timer, timer.total, buf, area);
    lemma_sleeping_follows_timer::<S>(timer.rewound(), timer.total, buf, area);
    assert(timer.rewound() == timer);
    assert(timer.processed(Duration { milliseconds: 0 }) == timer);
    assert(timer.flipped().processed(Duration { milliseconds: 0 }) == timer.flipped());
    assert(start == bounced::<S>(timer, strategy, 0));
    crate::fx::containers::lemma_total_ms_is_not_negative(ticks);
    if ticks.len() == 0 {
    } else {
        let before = ticks.drop_last();
        crate::fx::containers::lemma_total_ms_is_not_negative(before);
        lemma_ping_pong_cycle::<S>(timer, before, buf, area);
        lemma_fed_one_more(start, ticks, buf, area);
        lemma_ping_pong_step::<S>(timer, strategy, total_ms(before), ticks.last(), buf, area);
        lemma_sleeping_follows_timer::<S>(
            timer.processed(Duration { milliseconds: total_ms(before) as u32 }),
            ticks.last(),
            buf,
            area,
        );
    }
    let elapsed = total_ms(ticks);
    let total = timer.total.milliseconds as int;
    let beyond = if elapsed > total {
        elapsed - total
    } else {
        0
    };
    lemma_sleeping_follows_timer::<S>(
        timer.flipped().processed(Duration { milliseconds: beyond as u32 }),
        timer.total,
        buf,
        area,
    );
}

} // verus!
