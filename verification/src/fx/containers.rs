//! Effects that run several effects, one after the other or side by side.

use crate::cell_filter::CellFilter;
use crate::duration::Duration;
use crate::effect::{area_or, Effect, Fx};
use crate::fx::sleep::{fresh_timer, Sleep};
use crate::interpolation::Interpolation;
use crate::effect_timer::EffectTimer;
use crate::geometry::Rect;
use crate::shader::{share, Processed, Shader};
use ratatui::buffer::Buffer;
use std::rc::Rc;
use vstd::prelude::*;

verus! {

/// The children of a container, first child first.
pub enum EffectList<S> {
    Nil,
    Cons(Effect<S>, Box<EffectList<S>>),
}

/// Runs its children in order; `current` is the cursor, the index of the child
/// that the next budget goes to.
pub struct SequentialEffect<S> {
    pub effects: EffectList<S>,
    pub current: usize,
}

/// Runs its children side by side.
pub struct ParallelEffect<S> {
    pub effects: EffectList<S>,
}

/// What one call leaves of a sequence: the children, the cursor, the budget
/// that the last child fed did not consume, and the grid.
pub struct SequenceStep<S> {
    pub effects: EffectList<S>,
    pub current: usize,
    pub overflow: Option<Duration>,
    pub buf: Buffer,
}

/// What one call leaves of a group of parallel children.
pub struct ParallelStep<S> {
    pub effects: EffectList<S>,
    pub overflow: Option<Duration>,
    pub buf: Buffer,
}

/// The cursor moved on by one child.
pub open spec fn next_index(current: usize) -> usize {
    if current < usize::MAX {
        (current + 1) as usize
    } else {
        current
    }
}

/// The overflow of a group after one more child has reported `reported`: none
/// as soon as one child reports none, else the smallest one reported.
pub open spec fn least_overflow(so_far: Option<Duration>, reported: Option<Duration>) -> Option<
    Duration,
> {
    match (so_far, reported) {
        (Some(a), Some(b)) => Some(
            if b.milliseconds <= a.milliseconds {
                b
            } else {
                a
            },
        ),
        _ => None,
    }
}

impl<S: Shader> EffectList<S> {
    /// The children as a sequence.
    pub open spec fn seq(self) -> Seq<Effect<S>>
        decreases self,
    {
        match self {
            EffectList::Nil => Seq::empty(),
            EffectList::Cons(head, tail) => seq![head] + tail.seq(),
        }
    }

    pub open spec fn all_done(self) -> bool
        decreases self, 0int,
    {
        match self {
            EffectList::Nil => true,
            EffectList::Cons(head, tail) => head.is_done() && tail.all_done(),
        }
    }

    pub open spec fn rewound(self) -> Self
        decreases self, 0int,
    {
        match self {
            EffectList::Nil => EffectList::Nil,
            EffectList::Cons(head, tail) => EffectList::Cons(
                head.rewound(),
                Box::new(tail.rewound()),
            ),
        }
    }

    pub open spec fn turned(self) -> Self
        decreases self, 0int,
    {
        match self {
            EffectList::Nil => EffectList::Nil,
            EffectList::Cons(head, tail) => EffectList::Cons(
                head.turned(),
                Box::new(tail.turned()),
            ),
        }
    }

    pub open spec fn placed(self, area: Rect) -> Self
        decreases self, 0int,
    {
        match self {
            EffectList::Nil => EffectList::Nil,
            EffectList::Cons(head, tail) => EffectList::Cons(
                head.placed(area),
                Box::new(tail.placed(area)),
            ),
        }
    }

    pub open spec fn selecting(self, filter: Rc<CellFilter>) -> Self
        decreases self, 0int,
    {
        match self {
            EffectList::Nil => EffectList::Nil,
            EffectList::Cons(head, tail) => EffectList::Cons(
                head.selecting(filter),
                Box::new(tail.selecting(filter)),
            ),
        }
    }

    /// One call of a sequence whose cursor stands `skip` children further on.
    ///
    /// The child at the cursor gets the whole budget. The cursor moves past it
    /// when it reports overflow or is done; the overflow then goes to the next
    /// child within the same call. A sequence whose cursor has passed the last
    /// child hands the budget back.
    pub open spec fn sequenced(
        self,
        skip: nat,
        current: usize,
        budget: Duration,
        buf: Buffer,
        area: Rect,
    ) -> SequenceStep<S>
        decreases self, 0int,
    {
        match self {
            EffectList::Nil => SequenceStep {
                effects: EffectList::Nil,
                current,
                overflow: Some(budget),
                buf,
            },
            EffectList::Cons(head, tail) => {
                if skip > 0 {
                    let rest = tail.sequenced((skip - 1) as nat, current, budget, buf, area);
                    SequenceStep {
                        effects: EffectList::Cons(head, Box::new(rest.effects)),
                        ..rest
                    }
                } else {
                    let p = head.processed(budget, buf, area_or(head.area_of(), area));
                    match p.overflow {
                        Some(left) => {
                            let rest = tail.sequenced(0, next_index(current), left, p.buf, area);
                            SequenceStep {
                                effects: EffectList::Cons(p.shader, Box::new(rest.effects)),
                                ..rest
                            }
                        },
                        None => SequenceStep {
                            effects: EffectList::Cons(p.shader, tail),
                            current: if p.shader.is_done() {
                                next_index(current)
                            } else {
                                current
                            },
                            overflow: None,
                            buf: p.buf,
                        },
                    }
                }
            },
        }
    }

    /// One call of a parallel group: every child that is still running gets the
    /// whole of `duration`, in order; `so_far` gathers the overflow.
    pub open spec fn paralleled(
        self,
        duration: Duration,
        so_far: Option<Duration>,
        buf: Buffer,
        area: Rect,
    ) -> ParallelStep<S>
        decreases self, 0int,
    {
        match self {
            EffectList::Nil => ParallelStep { effects: EffectList::Nil, overflow: so_far, buf },
            EffectList::Cons(head, tail) => {
                if head.is_done() {
                    let rest = tail.paralleled(duration, so_far, buf, area);
                    ParallelStep {
                        effects: EffectList::Cons(head, Box::new(rest.effects)),
                        ..rest
                    }
                } else {
                    let p = head.processed(duration, buf, area_or(head.area_of(), area));
                    let rest = tail.paralleled(
                        duration,
                        least_overflow(so_far, p.overflow),
                        p.buf,
                        area,
                    );
                    ParallelStep {
                        effects: EffectList::Cons(p.shader, Box::new(rest.effects)),
                        ..rest
                    }
                }
            },
        }
    }

    /// The declared durations of the children that have one, added up and
    /// capped at the longest duration there is.
    pub open spec fn total_time(self) -> Duration
        decreases self, 0int,
    {
        match self {
            EffectList::Nil => Duration { milliseconds: 0 },
            EffectList::Cons(head, tail) => match head.timer_of() {
                Some(timer) => timer.total.capped_sum(tail.total_time()),
                None => tail.total_time(),
            },
        }
    }

    /// The longest declared duration among the children that have one.
    pub open spec fn longest_time(self) -> Option<Duration>
        decreases self, 0int,
    {
        match self {
            EffectList::Nil => None,
            EffectList::Cons(head, tail) => match (head.timer_of(), tail.longest_time()) {
                (Some(timer), Some(other)) => Some(
                    if timer.total.milliseconds >= other.milliseconds {
                        timer.total
                    } else {
                        other
                    },
                ),
                (Some(timer), None) => Some(timer.total),
                (None, other) => other,
            },
        }
    }

    /// Whether the list has a child at `index`.
    pub open spec fn reaches(self, index: nat) -> bool {
        index < self.seq().len()
    }

    /// The children of `effects`, in the same order.
    pub fn from_vec(effects: Vec<Effect<S>>) -> (list: Self)
        ensures
            list.seq() == effects@,
    {
        let mut effects = effects;
        let ghost all = effects@;
        let mut list = EffectList::Nil;
        while effects.len() > 0
            invariant
                effects@.len() <= all.len(),
                effects@ == all.subrange(0, effects@.len() as int),
                list.seq() == all.subrange(effects@.len() as int, all.len() as int),
            decreases effects.len(),
        {
            let last = effects.pop().unwrap();
            proof {
                let n = effects@.len() as int;
                assert((seq![last] + list.seq()) =~= all.subrange(n, all.len() as int));
            }
            list = EffectList::Cons(last, Box::new(list));
        }
        proof {
            assert(all.subrange(0, all.len() as int) =~= all);
        }
        list
    }

    /// Deep copies of the items of `effects`, in the same order.
    pub fn from_slice(effects: &[Effect<S>]) -> (list: Self)
        ensures
            list.seq() == effects@,
    {
        let mut list = EffectList::Nil;
        let mut i = effects.len();
        while i > 0
            invariant
                i <= effects@.len(),
                list.seq() == effects@.subrange(i as int, effects@.len() as int),
            decreases i,
        {
            i -= 1;
            let copy = effects[i].clone_effect();
            proof {
                assert((seq![copy] + list.seq()) =~= effects@.subrange(
                    i as int,
                    effects@.len() as int,
                ));
            }
            list = EffectList::Cons(copy, Box::new(list));
        }
        proof {
            assert(effects@.subrange(0, effects@.len() as int) =~= effects@);
        }
        list
    }

    pub fn clone_list(&self) -> (copy: Self)
        ensures
            copy == *self,
        decreases self, 0int,
    {
        match self {
            EffectList::Nil => EffectList::Nil,
            EffectList::Cons(head, tail) => EffectList::Cons(
                head.clone_effect(),
                Box::new(tail.clone_list()),
            ),
        }
    }

    pub fn has(&self, index: usize) -> (found: bool)
        ensures
            found == self.reaches(index as nat),
        decreases self,
    {
        match self {
            EffectList::Nil => false,
            EffectList::Cons(_, tail) => {
                proof {
                    assert((seq![*head_of(self)] + tail.seq()).len() == 1 + tail.seq().len());
                }
                if index == 0 {
                    true
                } else {
                    tail.has(index - 1)
                }
            },
        }
    }

    pub fn sum_of_durations(&self) -> (total: Duration)
        ensures
            total == self.total_time(),
        decreases self, 0int,
    {
        match self {
            EffectList::Nil => Duration::zero(),
            EffectList::Cons(head, tail) => match head.timer() {
                Some(timer) => timer.duration().saturating_add(tail.sum_of_durations()),
                None => tail.sum_of_durations(),
            },
        }
    }

    pub fn longest_duration(&self) -> (longest: Option<Duration>)
        ensures
            longest == self.longest_time(),
        decreases self, 0int,
    {
        match self {
            EffectList::Nil => None,
            EffectList::Cons(head, tail) => match (head.timer(), tail.longest_duration()) {
                (Some(timer), Some(other)) => Some(timer.duration().max(other)),
                (Some(timer), None) => Some(timer.duration()),
                (None, other) => other,
            },
        }
    }

    pub fn every_done(&self) -> (done: bool)
        ensures
            done == self.all_done(),
        decreases self, 0int,
    {
        match self {
            EffectList::Nil => true,
            EffectList::Cons(head, tail) => head.done() && tail.every_done(),
        }
    }

    pub fn reset_all(&mut self)
        ensures
            *final(self) == old(self).rewound(),
        decreases *old(self), 0int,
    {
        match self {
            EffectList::Nil => {},
            EffectList::Cons(head, tail) => {
                head.reset();
                tail.reset_all();
            },
        }
    }

    pub fn reverse_all(&mut self)
        ensures
            *final(self) == old(self).turned(),
        decreases *old(self), 0int,
    {
        match self {
            EffectList::Nil => {},
            EffectList::Cons(head, tail) => {
                head.reverse();
                tail.reverse_all();
            },
        }
    }

    pub fn place_all(&mut self, area: Rect)
        ensures
            *final(self) == old(self).placed(area),
        decreases *old(self), 0int,
    {
        match self {
            EffectList::Nil => {},
            EffectList::Cons(head, tail) => {
                head.set_area(area);
                tail.place_all(area);
            },
        }
    }

    pub fn select_all(&mut self, filter: &Rc<CellFilter>)
        ensures
            *final(self) == old(self).selecting(*filter),
        decreases *old(self), 0int,
    {
        match self {
            EffectList::Nil => {},
            EffectList::Cons(head, tail) => {
                head.set_cell_selection(share(filter));
                tail.select_all(filter);
            },
        }
    }

    /// Runs one call of a sequence; see [`EffectList::sequenced`].
    pub fn process_in_order(
        &mut self,
        skip: usize,
        current: &mut usize,
        budget: Duration,
        buf: &mut Buffer,
        area: Rect,
    ) -> (overflow: Option<Duration>)
        ensures
            *final(self) == old(self).sequenced(
                skip as nat,
                *old(current),
                budget,
                *old(buf),
                area,
            ).effects,
            *final(current) == old(self).sequenced(
                skip as nat,
                *old(current),
                budget,
                *old(buf),
                area,
            ).current,
            overflow == old(self).sequenced(
                skip as nat,
                *old(current),
                budget,
                *old(buf),
                area,
            ).overflow,
            *final(buf) == old(self).sequenced(
                skip as nat,
                *old(current),
                budget,
                *old(buf),
                area,
            ).buf,
        decreases *old(self), 0int,
    {
        match self {
            EffectList::Nil => Some(budget),
            EffectList::Cons(head, tail) => {
                if skip > 0 {
                    tail.process_in_order(skip - 1, current, budget, buf, area)
                } else {
                    let effect_area = match head.area() {
                        Some(own) => own,
                        None => area,
                    };
                    match head.process(budget, buf, effect_area) {
                        Some(left) => {
                            if *current < usize::MAX {
                                *current = *current + 1;
                            }
                            tail.process_in_order(0, current, left, buf, area)
                        },
                        None => {
                            if head.done() && *current < usize::MAX {
                                *current = *current + 1;
                            }
                            None
                        },
                    }
                }
            },
        }
    }

    /// Runs one call of a parallel group; see [`EffectList::paralleled`].
    pub fn process_running(
        &mut self,
        duration: Duration,
        so_far: Option<Duration>,
        buf: &mut Buffer,
        area: Rect,
    ) -> (overflow: Option<Duration>)
        ensures
            *final(self) == old(self).paralleled(duration, so_far, *old(buf), area).effects,
            overflow == old(self).paralleled(duration, so_far, *old(buf), area).overflow,
            *final(buf) == old(self).paralleled(duration, so_far, *old(buf), area).buf,
        decreases *old(self), 0int,
    {
        match self {
            EffectList::Nil => so_far,
            EffectList::Cons(head, tail) => {
                if head.done() {
                    tail.process_running(duration, so_far, buf, area)
                } else {
                    let effect_area = match head.area() {
                        Some(own) => own,
                        None => area,
                    };
                    let reported = head.process(duration, buf, effect_area);
                    let remaining = match (so_far, reported) {
                        (Some(a), Some(b)) => Some(b.min(a)),
                        _ => None,
                    };
                    tail.process_running(duration, remaining, buf, area)
                }
            },
        }
    }
}

pub open spec fn head_of<S>(list: &EffectList<S>) -> &Effect<S>
    recommends
        list is Cons,
{
    &list->Cons_0
}

impl<S: Shader> SequentialEffect<S> {
    pub open spec fn is_done(&self) -> bool {
        !self.effects.reaches(self.current as nat)
    }

    pub open spec fn label(&self) -> Seq<char> {
        "sequential"@
    }

    pub open spec fn area_of(&self) -> Option<Rect> {
        None
    }

    pub open spec fn selection(&self) -> Option<Rc<CellFilter>> {
        None
    }

    /// The children's declared durations added up; none where that is zero.
    pub open spec fn timer_of(&self) -> Option<EffectTimer>
        decreases self, 1int,
    {
        if self.effects.total_time().milliseconds == 0 {
            None
        } else {
            Some(fresh_timer(self.effects.total_time(), Interpolation::Linear))
        }
    }

    pub open spec fn processed(&self, duration: Duration, buf: Buffer, area: Rect) -> Processed<
        Self,
    >
        decreases self, 1int,
    {
        let step = self.effects.sequenced(self.current as nat, self.current, duration, buf, area);
        Processed {
            shader: SequentialEffect { effects: step.effects, current: step.current },
            overflow: step.overflow,
            buf: step.buf,
        }
    }

    pub open spec fn rewound(&self) -> Self
        decreases self, 1int,
    {
        SequentialEffect { effects: self.effects.rewound(), current: 0 }
    }

    pub open spec fn turned(&self) -> Self
        decreases self, 1int,
    {
        SequentialEffect { effects: self.effects.turned(), current: self.current }
    }

    pub open spec fn placed(&self, area: Rect) -> Self
        decreases self, 1int,
    {
        SequentialEffect { effects: self.effects.placed(area), current: self.current }
    }

    pub open spec fn selecting(&self, filter: Rc<CellFilter>) -> Self
        decreases self, 1int,
    {
        SequentialEffect { effects: self.effects.selecting(filter), current: self.current }
    }

    pub fn new(effects: Vec<Effect<S>>) -> (shader: Self)
        ensures
            shader.effects.seq() == effects@,
            shader.current == 0,
    {
        Self { effects: EffectList::from_vec(effects), current: 0 }
    }

    pub fn clone_shader(&self) -> (copy: Self)
        ensures
            copy == *self,
        decreases self, 1int,
    {
        SequentialEffect { effects: self.effects.clone_list(), current: self.current }
    }

    pub fn name(&self) -> (name: &'static str)
        ensures
            name@ == self.label(),
    {
        "sequential"
    }

    /// Feeds the budget to the child at the cursor and, while a child reports
    /// overflow, on to the next one within the same call.
    pub fn process(&mut self, duration: Duration, buf: &mut Buffer, area: Rect) -> (overflow:
        Option<Duration>)
        ensures
            *final(self) == old(self).processed(duration, *old(buf), area).shader,
            overflow == old(self).processed(duration, *old(buf), area).overflow,
            *final(buf) == old(self).processed(duration, *old(buf), area).buf,
        decreases *old(self), 1int,
    {
        let skip = self.current;
        self.effects.process_in_order(skip, &mut self.current, duration, buf, area)
    }

    pub fn done(&self) -> (done: bool)
        ensures
            done == self.is_done(),
    {
        !self.effects.has(self.current)
    }

    pub fn area(&self) -> (area: Option<Rect>)
        ensures
            area == self.area_of(),
    {
        None
    }

    pub fn cell_selection(&self) -> (filter: Option<Rc<CellFilter>>)
        ensures
            filter == self.selection(),
    {
        None
    }

    pub fn timer(&self) -> (timer: Option<EffectTimer>)
        ensures
            timer == self.timer_of(),
        decreases self, 1int,
    {
        let duration = self.effects.sum_of_durations();
        if duration.is_zero() {
            None
        } else {
            Some(EffectTimer::new(duration, Interpolation::Linear))
        }
    }

    /// Rewinds the cursor to the first child and resets every child.
    pub fn reset(&mut self)
        ensures
            *final(self) == old(self).rewound(),
        decreases *old(self), 1int,
    {
        self.current = 0;
        self.effects.reset_all();
    }

    pub fn reverse(&mut self)
        ensures
            *final(self) == old(self).turned(),
        decreases *old(self), 1int,
    {
        self.effects.reverse_all();
    }

    pub fn set_area(&mut self, area: Rect)
        ensures
            *final(self) == old(self).placed(area),
        decreases *old(self), 1int,
    {
        self.effects.place_all(area);
    }

    pub fn set_cell_selection(&mut self, filter: Rc<CellFilter>)
        ensures
            *final(self) == old(self).selecting(filter),
        decreases *old(self), 1int,
    {
        self.effects.select_all(&filter);
    }
}

impl<S: Shader> ParallelEffect<S> {
    pub open spec fn is_done(&self) -> bool
        decreases self, 1int,
    {
        self.effects.all_done()
    }

    pub open spec fn label(&self) -> Seq<char> {
        "parallel"@
    }

    pub open spec fn area_of(&self) -> Option<Rect> {
        None
    }

    pub open spec fn selection(&self) -> Option<Rc<CellFilter>> {
        None
    }

    /// The longest of the children's declared durations.
    pub open spec fn timer_of(&self) -> Option<EffectTimer>
        decreases self, 1int,
    {
        match self.effects.longest_time() {
            Some(longest) => Some(fresh_timer(longest, Interpolation::Linear)),
            None => None,
        }
    }

    pub open spec fn processed(&self, duration: Duration, buf: Buffer, area: Rect) -> Processed<
        Self,
    >
        decreases self, 1int,
    {
        let step = self.effects.paralleled(duration, Some(duration), buf, area);
        Processed {
            shader: ParallelEffect { effects: step.effects },
            overflow: step.overflow,
            buf: step.buf,
        }
    }

    pub open spec fn rewound(&self) -> Self
        decreases self, 1int,
    {
        ParallelEffect { effects: self.effects.rewound() }
    }

    pub open spec fn turned(&self) -> Self
        decreases self, 1int,
    {
        ParallelEffect { effects: self.effects.turned() }
    }

    pub open spec fn placed(&self, area: Rect) -> Self
        decreases self, 1int,
    {
        ParallelEffect { effects: self.effects.placed(area) }
    }

    pub open spec fn selecting(&self, filter: Rc<CellFilter>) -> Self
        decreases self, 1int,
    {
        ParallelEffect { effects: self.effects.selecting(filter) }
    }

    pub fn new(effects: Vec<Effect<S>>) -> (shader: Self)
        ensures
            shader.effects.seq() == effects@,
    {
        Self { effects: EffectList::from_vec(effects) }
    }

    pub fn clone_shader(&self) -> (copy: Self)
        ensures
            copy == *self,
        decreases self, 1int,
    {
        ParallelEffect { effects: self.effects.clone_list() }
    }

    pub fn name(&self) -> (name: &'static str)
        ensures
            name@ == self.label(),
    {
        "parallel"
    }

    /// Feeds the whole of `duration` to every child that is still running and
    /// returns the smallest overflow, or none unless every one of them reported one.
    pub fn process(&mut self, duration: Duration, buf: &mut Buffer, area: Rect) -> (overflow:
        Option<Duration>)
        ensures
            *final(self) == old(self).processed(duration, *old(buf), area).shader,
            overflow == old(self).processed(duration, *old(buf), area).overflow,
            *final(buf) == old(self).processed(duration, *old(buf), area).buf,
        decreases *old(self), 1int,
    {
        self.effects.process_running(duration, Some(duration), buf, area)
    }

    pub fn done(&self) -> (done: bool)
        ensures
            done == self.is_done(),
        decreases self, 1int,
    {
        self.effects.every_done()
    }

    pub fn area(&self) -> (area: Option<Rect>)
        ensures
            area == self.area_of(),
    {
        None
    }

    pub fn cell_selection(&self) -> (filter: Option<Rc<CellFilter>>)
        ensures
            filter == self.selection(),
    {
        None
    }

    pub fn timer(&self) -> (timer: Option<EffectTimer>)
        ensures
            timer == self.timer_of(),
        decreases self, 1int,
    {
        match self.effects.longest_duration() {
            Some(longest) => Some(EffectTimer::new(longest, Interpolation::Linear)),
            None => None,
        }
    }

    pub fn reset(&mut self)
        ensures
            *final(self) == old(self).rewound(),
        decreases *old(self), 1int,
    {
        self.effects.reset_all();
    }

    pub fn reverse(&mut self)
        ensures
            *final(self) == old(self).turned(),
        decreases *old(self), 1int,
    {
        self.effects.reverse_all();
    }

    pub fn set_area(&mut self, area: Rect)
        ensures
            *final(self) == old(self).placed(area),
        decreases *old(self), 1int,
    {
        self.effects.place_all(area);
    }

    pub fn set_cell_selection(&mut self, filter: Rc<CellFilter>)
        ensures
            *final(self) == old(self).selecting(filter),
        decreases *old(self), 1int,
    {
        self.effects.select_all(&filter);
    }
}

/// The effect that owns a sleep with the given timer.
pub open spec fn sleeping<S>(timer: EffectTimer) -> Effect<S> {
    Effect { shader: Box::new(Fx::Sleep(Sleep { timer })) }
}

/// An effect that owns a sleep behaves as the sleep's timer does.
pub proof fn lemma_sleeping_follows_timer<S: Shader>(
    timer: EffectTimer,
    duration: Duration,
    buf: Buffer,
    area: Rect,
)
    ensures
        sleeping::<S>(timer).processed(duration, buf, area) == (Processed {
            shader: sleeping::<S>(timer.processed(duration)),
            overflow: timer.overflow(duration),
            buf,
        }),
        sleeping::<S>(timer).is_done() == timer.is_done(),
        sleeping::<S>(timer).area_of().is_none(),
        sleeping::<S>(timer).rewound() == sleeping::<S>(timer.rewound()),
        sleeping::<S>(timer).turned() == sleeping::<S>(timer.flipped()),
{
}

/// A sequence of two timed effects, fed exactly the sum of their durations,
/// leaves both finished and reports no overflow; fed `extra` more than that,
/// it reports exactly `extra` and the sequence itself is done.
pub proof fn lemma_sequence_budget<S: Shader>(
    first: EffectTimer,
    second: EffectTimer,
    extra: Duration,
    buf: Buffer,
    area: Rect,
)
    requires
        first.remaining == first.total,
        second.remaining == second.total,
        extra.milliseconds > 0,
        first.total.milliseconds + second.total.milliseconds + extra.milliseconds <= u32::MAX,
    ensures
        ({
            let sequence = SequentialEffect::<S> {
                effects: EffectList::Cons(
                    sleeping(first),
                    Box::new(EffectList::Cons(sleeping(second), Box::new(EffectList::Nil))),
                ),
                current: 0,
            };
            let exact = Duration {
                milliseconds: (first.total.milliseconds + second.total.milliseconds) as u32,
            };
            let more = Duration {
                milliseconds: (first.total.milliseconds + second.total.milliseconds
                    + extra.milliseconds) as u32,
            };
            let a = sequence.processed(exact, buf, area);
            let b = sequence.processed(more, buf, area);
            &&& a.overflow.is_none()
            &&& a.shader.effects.seq()[0].is_done()
            &&& a.shader.effects.seq()[1].is_done()
            &&& a.buf == buf
            &&& b.overflow == Some(extra)
            &&& b.shader.effects.seq()[0].is_done()
            &&& b.shader.effects.seq()[1].is_done()
            &&& b.shader.is_done()
            &&& b.buf == buf
        }),
{
    let nil = EffectList::<S>::Nil;
    let tail = EffectList::<S>::Cons(sleeping(second), Box::new(nil));
    let list = EffectList::<S>::Cons(sleeping(first), Box::new(tail));
    let exact = Duration {
        milliseconds: (first.total.milliseconds + second.total.milliseconds) as u32,
    };
    let more = Duration {
        milliseconds: (first.total.milliseconds + second.total.milliseconds
            + extra.milliseconds) as u32,
    };
    let first_done = sleeping::<S>(first.processed(exact));
    let second_done = sleeping::<S>(second.processed(second.total));
    let done_tail = EffectList::<S>::Cons(second_done, Box::new(nil));
    let done_list = EffectList::<S>::Cons(first_done, Box::new(done_tail));
    assert(done_list.seq() =~= seq![first_done, second_done]) by {
        reveal_with_fuel(EffectList::seq, 3);
    }
    assert(first_done.is_done() && second_done.is_done()) by {
        lemma_sleeping_follows_timer::<S>(first.processed(exact), exact, buf, area);
        lemma_sleeping_follows_timer::<S>(second.processed(second.total), exact, buf, area);
    }
    // Fed more than both durations: every child overflows and the cursor passes the end.
    lemma_sleeping_follows_timer::<S>(first, more, buf, area);
    let left = first.overflow(more)->Some_0;
    lemma_sleeping_follows_timer::<S>(second, left, buf, area);
    assert(nil.sequenced(0, 2, extra, buf, area) == (SequenceStep {
        effects: nil,
        current: 2,
        overflow: Some(extra),
        buf,
    }));
    assert(tail.sequenced(0, 1, left, buf, area) == (SequenceStep {
        effects: done_tail,
        current: 2,
        overflow: Some(extra),
        buf,
    }));
    assert(list.sequenced(0, 0, more, buf, area) == (SequenceStep {
        effects: done_list,
        current: 2,
        overflow: Some(extra),
        buf,
    }));
    // Fed exactly both durations.
    lemma_sleeping_follows_timer::<S>(first, exact, buf, area);
    if second.total.milliseconds == 0 {
        assert(second_done == sleeping::<S>(second));
        assert(list.sequenced(0, 0, exact, buf, area) == (SequenceStep {
            effects: done_list,
            current: 1,
            overflow: None,
            buf,
        }));
    } else {
        lemma_sleeping_follows_timer::<S>(second, second.total, buf, area);
        assert(tail.sequenced(0, 1, second.total, buf, area) == (SequenceStep {
            effects: done_tail,
            current: 2,
            overflow: None,
            buf,
        }));
        assert(list.sequenced(0, 0, exact, buf, area) == (SequenceStep {
            effects: done_list,
            current: 2,
            overflow: None,
            buf,
        }));
    }
}

/// A sequence of two timed effects.
pub open spec fn sleep_pair<S>(first: EffectTimer, second: EffectTimer) -> EffectList<S> {
    EffectList::Cons(
        sleeping(first),
        Box::new(EffectList::Cons(sleeping(second), Box::new(EffectList::Nil))),
    )
}

/// One call of a sequence of two timed effects, written out over their timers.
pub proof fn lemma_sleep_pair_step<S: Shader>(
    first: EffectTimer,
    second: EffectTimer,
    current: usize,
    budget: Duration,
    buf: Buffer,
    area: Rect,
)
    requires
        current <= 1,
    ensures
        ({
            let step = sleep_pair::<S>(first, second).sequenced(
                current as nat,
                current,
                budget,
                buf,
                area,
            );
            &&& step.buf == buf
            &&& current == 0 && first.overflow(budget).is_none() ==> {
                &&& step.effects == sleep_pair::<S>(first.processed(budget), second)
                &&& step.overflow.is_none()
                &&& step.current == if first.processed(budget).is_done() {
                    1usize
                } else {
                    0usize
                }
            }
            &&& current == 0 && first.overflow(budget).is_some() ==> {
                let left = first.overflow(budget)->Some_0;
                &&& step.effects == sleep_pair::<S>(
                    first.processed(budget),
                    second.processed(left),
                )
                &&& step.overflow == second.overflow(left)
                &&& step.current == if second.processed(left).is_done() {
                    2usize
                } else {
                    1usize
                }
            }
            &&& current == 1 ==> {
                &&& step.effects == sleep_pair::<S>(first, second.processed(budget))
                &&& step.overflow == second.overflow(budget)
                &&& step.current == if second.processed(budget).is_done() {
                    2usize
                } else {
                    1usize
                }
            }
        }),
{
    let nil = EffectList::<S>::Nil;
    let tail = EffectList::<S>::Cons(sleeping(second), Box::new(nil));
    let list = sleep_pair::<S>(first, second);
    if current == 1 {
        lemma_sleeping_follows_timer::<S>(second, budget, buf, area);
        lemma_sleeping_follows_timer::<S>(second.processed(budget), budget, buf, area);
        match second.overflow(budget) {
            Some(left) => {
                assert(nil.sequenced(0, 2, left, buf, area).overflow == Some(left));
            },
            None => {},
        }
        let inner = tail.sequenced(0, 1, budget, buf, area);
        assert(inner.effects == EffectList::<S>::Cons(
            sleeping(second.processed(budget)),
            Box::new(nil),
        ));
        assert(list.sequenced(1, 1, budget, buf, area).effects == EffectList::<S>::Cons(
            sleeping(first),
            Box::new(inner.effects),
        ));
    } else {
        lemma_sleeping_follows_timer::<S>(first, budget, buf, area);
        lemma_sleeping_follows_timer::<S>(first.processed(budget), budget, buf, area);
        match first.overflow(budget) {
            Some(left) => {
                lemma_sleeping_follows_timer::<S>(second, left, buf, area);
                lemma_sleeping_follows_timer::<S>(second.processed(left), left, buf, area);
                match second.overflow(left) {
                    Some(rest) => {
                        assert(nil.sequenced(0, 2, rest, buf, area).overflow == Some(rest));
                    },
                    None => {},
                }
                let inner = tail.sequenced(0, 1, left, buf, area);
                assert(inner.effects == EffectList::<S>::Cons(
                    sleeping(second.processed(left)),
                    Box::new(nil),
                ));
                assert(list.sequenced(0, 0, budget, buf, area).effects == EffectList::<S>::Cons(
                    sleeping(first.processed(budget)),
                    Box::new(inner.effects),
                ));
            },
            None => {},
        }
    }
}

/// Time is accounted for exactly across calls: a sequence of two timed effects
/// that is fed two ticks, the first of which does not finish it, ends up
/// where a single tick of their sum would have left it. Both effects are done
/// as soon as the ticks add up to the two durations, and what the ticks hold
/// beyond that comes back as overflow, wherever in the first or the second
/// effect the first tick ended.
pub proof fn lemma_sequence_no_drift<S: Shader>(
    first: EffectTimer,
    second: EffectTimer,
    tick: Duration,
    next_tick: Duration,
    buf: Buffer,
    area: Rect,
)
    requires
        first.remaining == first.total,
        second.remaining == second.total,
        tick.milliseconds < first.total.milliseconds + second.total.milliseconds,
        first.total.milliseconds + second.total.milliseconds <= tick.milliseconds
            + next_tick.milliseconds,
    ensures
        ({
            let sequence = SequentialEffect::<S> {
                effects: sleep_pair(first, second),
                current: 0,
            };
            let excess = tick.milliseconds + next_tick.milliseconds - first.total.milliseconds
                - second.total.milliseconds;
            let a = sequence.processed(tick, buf, area);
            let b = a.shader.processed(next_tick, a.buf, area);
            &&& a.overflow.is_none()
            &&& !a.shader.is_done()
            &&& b.shader.effects == sleep_pair::<S>(
                first.processed(first.total),
                second.processed(second.total),
            )
            &&& b.overflow == if excess > 0 {
                Some(Duration { milliseconds: excess as u32 })
            } else {
                None
            }
            &&& second.total.milliseconds > 0 ==> b.shader.is_done()
            &&& b.buf == buf
        }),
{
    let list = sleep_pair::<S>(first, second);
    lemma_sleep_pair_step::<S>(first, second, 0, tick, buf, area);
    let a = list.sequenced(0, 0, tick, buf, area);
    assert(list.seq().len() == 2) by {
        reveal_with_fuel(EffectList::seq, 3);
    }
    let first_after = match first.overflow(tick) {
        Some(_) => first.processed(tick),
        None => first.processed(tick),
    };
    let second_after = match first.overflow(tick) {
        Some(left) => second.processed(left),
        None => second,
    };
    assert(a.effects == sleep_pair::<S>(first_after, second_after));
    assert(a.effects.seq().len() == 2) by {
        reveal_with_fuel(EffectList::seq, 3);
    }
    assert(a.current <= 1);
    lemma_sleep_pair_step::<S>(first_after, second_after, a.current, next_tick, buf, area);
    let b = a.effects.sequenced(a.current as nat, a.current, next_tick, buf, area);
    assert(b.effects.seq().len() == 2) by {
        reveal_with_fuel(EffectList::seq, 3);
    }
}

/// The lengths of the ticks added up.
pub open spec fn total_ms(ticks: Seq<Duration>) -> int
    decreases ticks.len(),
{
    if ticks.len() == 0 {
        0
    } else {
        total_ms(ticks.drop_last()) + ticks.last().milliseconds
    }
}

pub proof fn lemma_total_ms_is_not_negative(ticks: Seq<Duration>)
    ensures
        total_ms(ticks) >= 0,
        ticks.len() > 0 ==> total_ms(ticks.drop_last()) <= total_ms(ticks),
    decreases ticks.len(),
{
    if ticks.len() > 0 {
        lemma_total_ms_is_not_negative(ticks.drop_last());
    }
}

/// The timed effects with the given timers, in order.
pub open spec fn sleeps<S>(timers: Seq<EffectTimer>) -> EffectList<S>
    decreases timers.len(),
{
    if timers.len() == 0 {
        EffectList::Nil
    } else {
        EffectList::Cons(sleeping(timers[0]), Box::new(sleeps(timers.drop_first())))
    }
}

/// The durations of the timers added up.
pub open spec fn total_of(timers: Seq<EffectTimer>) -> int
    decreases timers.len(),
{
    if timers.len() == 0 {
        0
    } else {
        timers[0].total.milliseconds + total_of(timers.drop_first())
    }
}

/// A sequence of any number of timed effects accounts for every millisecond:
/// fed at least the sum of their durations in one call, it leaves every effect
/// done and reports exactly what the budget holds beyond that sum.
pub proof fn lemma_sleep_sequence_budget<S: Shader>(
    timers: Seq<EffectTimer>,
    current: usize,
    budget: Duration,
    buf: Buffer,
    area: Rect,
)
    requires
        timers.len() > 0,
        forall|i: int| 0 <= i < timers.len() ==> (#[trigger] timers[i]).remaining == timers[i].total,
        total_of(timers) <= budget.milliseconds,
    ensures
        ({
            let step = sleeps::<S>(timers).sequenced(0, current, budget, buf, area);
            &&& step.overflow == if budget.milliseconds > total_of(timers) {
                Some(Duration { milliseconds: (budget.milliseconds - total_of(timers)) as u32 })
            } else {
                None
            }
            &&& step.effects.all_done()
            &&& step.buf == buf
        }),
    decreases timers.len(),
{
    let head = timers[0];
    let rest = timers.drop_first();
    let list = sleeps::<S>(timers);
    lemma_sleeping_follows_timer::<S>(head, budget, buf, area);
    lemma_sleeping_follows_timer::<S>(head.processed(budget), budget, buf, area);
    assert(total_of(rest) >= 0) by {
        lemma_total_is_not_negative(rest);
    }
    assert(list == EffectList::<S>::Cons(sleeping(head), Box::new(sleeps(rest))));
    match head.overflow(budget) {
        Some(left) => {
            if rest.len() == 0 {
                assert(sleeps::<S>(rest).sequenced(0, next_index(current), left, buf, area).overflow
                    == Some(left));
                assert(sleeps::<S>(rest).all_done());
            } else {
                assert forall|i: int| 0 <= i < rest.len() implies (#[trigger] rest[i]).remaining
                    == rest[i].total by {
                    assert(rest[i] == timers[i + 1]);
                }
                lemma_sleep_sequence_budget::<S>(rest, next_index(current), left, buf, area);
            }
        },
        None => {
            assert forall|i: int| 0 <= i < rest.len() implies (#[trigger] rest[i]).remaining
                == rest[i].total by {
                assert(rest[i] == timers[i + 1]);
            }
            lemma_fresh_empty_sleeps_are_done::<S>(rest);
        },
    }
}

proof fn lemma_total_is_not_negative(timers: Seq<EffectTimer>)
    ensures
        total_of(timers) >= 0,
    decreases timers.len(),
{
    if timers.len() > 0 {
        lemma_total_is_not_negative(timers.drop_first());
    }
}

/// Timed effects that have not started and take no time are done.
proof fn lemma_fresh_empty_sleeps_are_done<S: Shader>(timers: Seq<EffectTimer>)
    requires
        forall|i: int| 0 <= i < timers.len() ==> (#[trigger] timers[i]).remaining == timers[i].total,
        total_of(timers) <= 0,
    ensures
        sleeps::<S>(timers).all_done(),
    decreases timers.len(),
{
    if timers.len() > 0 {
        let rest = timers.drop_first();
        lemma_total_is_not_negative(rest);
        assert forall|i: int| 0 <= i < rest.len() implies (#[trigger] rest[i]).remaining
            == rest[i].total by {
            assert(rest[i] == timers[i + 1]);
        }
        lemma_fresh_empty_sleeps_are_done::<S>(rest);
        assert(sleeping::<S>(timers[0]).is_done());
    }
}

/// Two timed effects side by side after `elapsed` milliseconds in all: each
/// has had all of them.
pub open spec fn grouped<S>(first: EffectTimer, second: EffectTimer, elapsed: int) -> Effect<S> {
    Effect {
        shader: Box::new(
            Fx::Parallel(
                ParallelEffect {
                    effects: sleep_pair(
                        first.processed(Duration { milliseconds: elapsed as u32 }),
                        second.processed(Duration { milliseconds: elapsed as u32 }),
                    ),
                },
            ),
        ),
    }
}

/// One call on a single timed child of a group: the child has had the tick,
/// whether it was still running or already done and left alone.
proof fn lemma_single_child_step<S: Shader>(
    timer: EffectTimer,
    tick: Duration,
    so_far: Option<Duration>,
    buf: Buffer,
    area: Rect,
)
    ensures
        ({
            let step = EffectList::<S>::Cons(
                sleeping(timer),
                Box::new(EffectList::Nil),
            ).paralleled(tick, so_far, buf, area);
            &&& step.effects == EffectList::<S>::Cons(
                sleeping(timer.processed(tick)),
                Box::new(EffectList::Nil),
            )
            &&& step.buf == buf
        }),
{
    let nil = EffectList::<S>::Nil;
    lemma_sleeping_follows_timer::<S>(timer, tick, buf, area);
    let passed = least_overflow(so_far, timer.overflow(tick));
    assert(nil.paralleled(tick, so_far, buf, area).effects == nil);
    assert(nil.paralleled(tick, passed, buf, area).effects == nil);
    if timer.is_done() {
        assert(timer.processed(tick) == timer);
    }
}

/// One call on a group of two timed effects moves both on by the length of
/// the tick; a child that is done stays as it is.
pub proof fn lemma_parallel_step<S: Shader>(
    first: EffectTimer,
    second: EffectTimer,
    elapsed: int,
    tick: Duration,
    buf: Buffer,
    area: Rect,
)
    requires
        0 <= elapsed,
        elapsed + tick.milliseconds <= u32::MAX,
    ensures
        grouped::<S>(first, second, elapsed).processed(tick, buf, area).shader == grouped::<S>(
            first,
            second,
            elapsed + tick.milliseconds,
        ),
        grouped::<S>(first, second, elapsed).processed(tick, buf, area).buf == buf,
{
    let a = first.processed(Duration { milliseconds: elapsed as u32 });
    let b = second.processed(Duration { milliseconds: elapsed as u32 });
    let after = Duration { milliseconds: (elapsed + tick.milliseconds) as u32 };
    assert(a.processed(tick) == first.processed(after));
    assert(b.processed(tick) == second.processed(after));
    lemma_sleeping_follows_timer::<S>(a, tick, buf, area);
    lemma_single_child_step::<S>(b, tick, Some(tick), buf, area);
    lemma_single_child_step::<S>(b, tick, least_overflow(Some(tick), a.overflow(tick)), buf, area);
    if a.is_done() {
        assert(a.processed(tick) == a);
    }
    let list = sleep_pair::<S>(a, b);
    let step = list.paralleled(tick, Some(tick), buf, area);
    assert(step.effects == sleep_pair::<S>(a.processed(tick), b.processed(tick)));
}

/// A group of two timed effects is done exactly when the time fed to it has
/// reached the longer of the two durations, however the time is cut into
/// ticks. Each child is done from the moment the time fed reaches its own
/// duration, and from then on it stays as it is.
pub proof fn lemma_parallel_over_ticks<S: Shader>(
    first: EffectTimer,
    second: EffectTimer,
    ticks: Seq<Duration>,
    buf: Buffer,
    area: Rect,
)
    requires
        first.remaining == first.total,
        second.remaining == second.total,
        total_ms(ticks) <= u32::MAX,
    ensures
        ({
            let group = Effect::<S> {
                shader: Box::new(
                    Fx::Parallel(ParallelEffect { effects: sleep_pair(first, second) }),
                ),
            };
            let elapsed = total_ms(ticks);
            let end = group.fed(ticks, buf, area);
            &&& end.shader == grouped::<S>(first, second, elapsed)
            &&& end.buf == buf
            &&& end.shader.is_done() <==> (elapsed >= first.total.milliseconds && elapsed
                >= second.total.milliseconds)
            &&& first.processed(Duration { milliseconds: elapsed as u32 }).is_done() <==> elapsed
                >= first.total.milliseconds
            &&& elapsed >= first.total.milliseconds ==> first.processed(
                Duration { milliseconds: elapsed as u32 },
            ) == first.processed(first.total)
        }),
    decreases ticks.len(),
{
    let group = Effect::<S> {
        shader: Box::new(Fx::Parallel(ParallelEffect { effects: sleep_pair(first, second) })),
    };
    lemma_total_ms_is_not_negative(ticks);
    assert(first.processed(Duration { milliseconds: 0 }) == first);
    assert(second.processed(Duration { milliseconds: 0 }) == second);
    assert(group == grouped::<S>(first, second, 0));
    if ticks.len() > 0 {
        let before = ticks.drop_last();
        lemma_total_ms_is_not_negative(before);
        lemma_parallel_over_ticks::<S>(first, second, before, buf, area);
        crate::effect::lemma_fed_one_more(group, ticks, buf, area);
        lemma_parallel_step::<S>(first, second, total_ms(before), ticks.last(), buf, area);
    }
    let elapsed = total_ms(ticks);
    let a = first.processed(Duration { milliseconds: elapsed as u32 });
    let b = second.processed(Duration { milliseconds: elapsed as u32 });
    lemma_sleeping_follows_timer::<S>(a, first.total, buf, area);
    lemma_sleeping_follows_timer::<S>(b, first.total, buf, area);
    let list = sleep_pair::<S>(a, b);
    let tail = EffectList::<S>::Cons(sleeping(b), Box::new(EffectList::Nil));
    assert(list.all_done() == (sleeping::<S>(a).is_done() && tail.all_done()));
    assert(tail.all_done() == (sleeping::<S>(b).is_done() && EffectList::<S>::Nil.all_done()));
}

/// Two timed effects side by side, the first the shorter: once the shorter
/// duration has been fed, the first child is done and the second still runs.
/// From then on a tick leaves the first child as it is and advances only the
/// second, and the group is done exactly when the rest of the longer duration
/// has been fed.
pub proof fn lemma_parallel_shorter_child_freezes<S: Shader>(
    shorter: EffectTimer,
    longer: EffectTimer,
    tick: Duration,
    buf: Buffer,
    area: Rect,
)
    requires
        shorter.remaining == shorter.total,
        longer.remaining == longer.total,
        shorter.total.milliseconds < longer.total.milliseconds,
    ensures
        ({
            let group = ParallelEffect::<S> {
                effects: EffectList::Cons(
                    sleeping(shorter),
                    Box::new(EffectList::Cons(sleeping(longer), Box::new(EffectList::Nil))),
                ),
            };
            let rest = longer.total.milliseconds - shorter.total.milliseconds;
            let a = group.processed(shorter.total, buf, area);
            let b = a.shader.processed(tick, a.buf, area);
            &&& a.overflow.is_none()
            &&& a.shader.effects.seq()[0].is_done()
            &&& !a.shader.effects.seq()[1].is_done()
            &&& !a.shader.is_done()
            &&& b.shader.effects.seq()[0] == a.shader.effects.seq()[0]
            &&& b.shader.effects.seq()[1] == sleeping::<S>(
                longer.processed(shorter.total).processed(tick),
            )
            &&& b.shader.is_done() <==> tick.milliseconds >= rest
            &&& b.overflow.is_some() <==> tick.milliseconds > rest
            &&& b.buf == buf
        }),
{
    let nil = EffectList::<S>::Nil;
    let partly = longer.processed(shorter.total);
    let a_first = sleeping::<S>(shorter.processed(shorter.total));
    let a_tail = EffectList::<S>::Cons(sleeping(partly), Box::new(nil));
    let a_list = EffectList::<S>::Cons(a_first, Box::new(a_tail));
    let b_tail = EffectList::<S>::Cons(sleeping(partly.processed(tick)), Box::new(nil));
    let b_list = EffectList::<S>::Cons(a_first, Box::new(b_tail));
    let tail = EffectList::<S>::Cons(sleeping(longer), Box::new(nil));
    let list = EffectList::<S>::Cons(sleeping(shorter), Box::new(tail));
    assert(a_list.seq() =~= seq![a_first, sleeping::<S>(partly)]) by {
        reveal_with_fuel(EffectList::seq, 3);
    }
    assert(b_list.seq() =~= seq![a_first, sleeping::<S>(partly.processed(tick))]) by {
        reveal_with_fuel(EffectList::seq, 3);
    }
    lemma_sleeping_follows_timer::<S>(shorter, shorter.total, buf, area);
    lemma_sleeping_follows_timer::<S>(longer, shorter.total, buf, area);
    lemma_sleeping_follows_timer::<S>(shorter.processed(shorter.total), tick, buf, area);
    lemma_sleeping_follows_timer::<S>(partly, tick, buf, area);
    lemma_sleeping_follows_timer::<S>(partly.processed(tick), tick, buf, area);
    // The first call: the second child runs, and so does the first unless it is empty.
    assert(nil.paralleled(shorter.total, None, buf, area) == (ParallelStep {
        effects: nil,
        overflow: None,
        buf,
    }));
    assert(tail.paralleled(shorter.total, None, buf, area) == (ParallelStep {
        effects: a_tail,
        overflow: None,
        buf,
    }));
    assert(tail.paralleled(shorter.total, Some(shorter.total), buf, area) == (ParallelStep {
        effects: a_tail,
        overflow: None,
        buf,
    }));
    assert(list.paralleled(shorter.total, Some(shorter.total), buf, area) == (ParallelStep {
        effects: a_list,
        overflow: None,
        buf,
    }));
    assert(a_list.all_done() == (a_first.is_done() && a_tail.all_done()));
    assert(a_tail.all_done() == (sleeping::<S>(partly).is_done() && nil.all_done()));
    // The second call: the first child is skipped.
    let reported = partly.overflow(tick);
    assert(nil.paralleled(tick, least_overflow(Some(tick), reported), buf, area)
        == (ParallelStep { effects: nil, overflow: least_overflow(Some(tick), reported), buf }));
    assert(!sleeping::<S>(partly).is_done());
    assert(sleeping::<S>(partly).processed(tick, buf, area).shader == sleeping::<S>(partly.processed(tick)));
    assert(sleeping::<S>(partly).processed(tick, buf, area).overflow == reported);
    assert(a_tail.paralleled(tick, Some(tick), buf, area) == (ParallelStep {
        effects: b_tail,
        overflow: least_overflow(Some(tick), reported),
        buf,
    }));
    assert(a_list.paralleled(tick, Some(tick), buf, area) == (ParallelStep {
        effects: b_list,
        overflow: least_overflow(Some(tick), reported),
        buf,
    }));
    assert(b_list.all_done() == (a_first.is_done() && b_tail.all_done()));
    assert(b_tail.all_done() == (sleeping::<S>(partly.processed(tick)).is_done()
        && nil.all_done()));
}

} // verus!
