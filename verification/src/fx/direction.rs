//! The directions a sweeping or sliding effect can run in.

use crate::geometry::{Position, Rect};
use crate::simple_rng::{lcg_next, RangeSampler, SimpleRng};
use vstd::prelude::*;

verus! {

#[derive(Clone, Copy, Debug, PartialEq, Eq, Structural, Hash)]
pub enum Direction {
    LeftToRight,
    RightToLeft,
    UpToDown,
    DownToUp,
}

impl Direction {
    /// The opposite direction.
    pub fn flipped(&self) -> (opposite: Self)
        ensures
            opposite == match *self {
                Direction::LeftToRight => Direction::RightToLeft,
                Direction::RightToLeft => Direction::LeftToRight,
                Direction::UpToDown => Direction::DownToUp,
                Direction::DownToUp => Direction::UpToDown,
            },
    {
        match self {
            Direction::LeftToRight => Direction::RightToLeft,
            Direction::RightToLeft => Direction::LeftToRight,
            Direction::UpToDown => Direction::DownToUp,
            Direction::DownToUp => Direction::UpToDown,
        }
    }

    /// Whether an effect running in this direction runs its timer backwards.
    pub fn flips_timer(&self) -> (flips: bool)
        ensures
            flips == (*self == Direction::RightToLeft || *self == Direction::DownToUp),
    {
        match self {
            Direction::RightToLeft => true,
            Direction::DownToUp => true,
            _ => false,
        }
    }
}

/// Draws the random offsets that roughen the edge of a directional effect.
#[derive(Clone, Copy, Debug, PartialEq, Eq, Structural)]
pub struct DirectionalVariance {
    pub rng: SimpleRng,
    pub direction: Direction,
    pub max: i16,
}

/// The seed for an area: its width in the upper half, its height in the lower.
pub open spec fn area_seed(area: Rect) -> u32 {
    ((area.width as u32) << 16) | (area.height as u32)
}

impl DirectionalVariance {
    /// The largest offset is never negative.
    pub open spec fn wf(self) -> bool {
        self.max >= 0
    }

    /// The offset that `next` draws, and the generator afterwards.
    pub open spec fn drawn(self) -> ((i16, i16), SimpleRng) {
        if self.max == 0 {
            ((0, 0), self.rng)
        } else {
            let variance = (lcg_next(self.rng.state) % (self.max as u32)) as i16;
            let next = SimpleRng { state: lcg_next(self.rng.state) };
            match self.direction {
                Direction::LeftToRight => ((variance, 0), next),
                Direction::RightToLeft => (((-variance) as i16, 0), next),
                Direction::UpToDown => ((0, variance), next),
                Direction::DownToUp => ((0, (-variance) as i16), next),
            }
        }
    }

    /// Seeds the generator from the dimensions of `area`, so that the same
    /// area always gets the same offsets.
    pub fn from(area: Rect, direction: Direction, max: u16) -> (variance: Self)
        requires
            max <= i16::MAX,
        ensures
            variance == (DirectionalVariance {
                rng: SimpleRng { state: area_seed(area) },
                direction,
                max: max as i16,
            }),
            variance.wf(),
    {
        Self {
            rng: SimpleRng::new(((area.width as u32) << 16) | (area.height as u32)),
            direction,
            max: max as i16,
        }
    }

    /// The next offset: up to `max` along the axis of the direction, against
    /// it for the two directions that flip the timer, and nothing across.
    /// With `max` at zero it is always `(0, 0)` and nothing is drawn.
    pub fn next(&mut self) -> (offset: (i16, i16))
        requires
            old(self).wf(),
        ensures
            offset == old(self).drawn().0,
            final(self).rng == old(self).drawn().1,
            final(self).direction == old(self).direction,
            final(self).max == old(self).max,
            -old(self).max < offset.0 < old(self).max || offset.0 == 0,
            -old(self).max < offset.1 < old(self).max || offset.1 == 0,
    {
        if self.max == 0 {
            return (0, 0);
        }
        let drawn: i32 = self.rng.gen_range(0..(self.max as i32));
        let variance: i16 = drawn as i16;
        match self.direction {
            Direction::LeftToRight => (variance, 0),
            Direction::RightToLeft => (-variance, 0),
            Direction::UpToDown => (0, variance),
            Direction::DownToUp => (0, -variance),
        }
    }
}

/// `p` moved by `translate`, stopping at the left and top edges of the grid.
pub open spec fn shifted(p: Position, translate: (i16, i16)) -> Position {
    Position {
        x: if p.x + translate.0 < 0 {
            0
        } else {
            (p.x + translate.0) as u16
        },
        y: if p.y + translate.1 < 0 {
            0
        } else {
            (p.y + translate.1) as u16
        },
    }
}

/// Moves a position by an offset drawn for its row or column.
pub fn offset(p: Position, translate: (i16, i16)) -> (moved: Position)
    requires
        p.x <= i16::MAX,
        p.y <= i16::MAX,
        p.x + translate.0 <= i16::MAX,
        p.y + translate.1 <= i16::MAX,
    ensures
        moved == shifted(p, translate),
{
    let x: i32 = p.x as i32 + translate.0 as i32;
    let y: i32 = p.y as i32 + translate.1 as i32;
    Position {
        x: if x < 0 {
            0
        } else {
            x as u16
        },
        y: if y < 0 {
            0
        } else {
            y as u16
        },
    }
}

} // verus!
