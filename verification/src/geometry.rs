//! Plain rectangles and positions on the cell grid.

use vstd::prelude::*;

verus! {

/// A cell coordinate.
#[derive(Clone, Copy, Debug, PartialEq, Eq, Structural, Hash)]
pub struct Position {
    pub x: u16,
    pub y: u16,
}

/// Horizontal and vertical inset.
#[derive(Clone, Copy, Debug, PartialEq, Eq, Structural, Hash)]
pub struct Margin {
    pub horizontal: u16,
    pub vertical: u16,
}

/// A width and a height.
#[derive(Clone, Copy, Debug, PartialEq, Eq, Structural, Hash)]
pub struct Size {
    pub width: u16,
    pub height: u16,
}

/// A signed displacement.
#[derive(Clone, Copy, Debug, PartialEq, Eq, Structural, Hash)]
pub struct Offset {
    pub x: i32,
    pub y: i32,
}

/// A rectangular area of the grid.
#[derive(Clone, Copy, Debug, PartialEq, Eq, Structural, Hash)]
pub struct Rect {
    pub x: u16,
    pub y: u16,
    pub width: u16,
    pub height: u16,
}

pub open spec fn saturating_sum(a: u16, b: u16) -> u16 {
    if a + b > u16::MAX {
        u16::MAX
    } else {
        (a + b) as u16
    }
}

pub open spec fn saturating_diff(a: u16, b: u16) -> u16 {
    if a >= b {
        (a - b) as u16
    } else {
        0
    }
}

pub open spec fn larger(a: u16, b: u16) -> u16 {
    if a >= b {
        a
    } else {
        b
    }
}

pub open spec fn smaller(a: u16, b: u16) -> u16 {
    if a <= b {
        a
    } else {
        b
    }
}

impl Position {
    pub fn new(x: u16, y: u16) -> (p: Self)
        ensures
            p == (Position { x, y }),
    {
        Position { x, y }
    }
}

impl Margin {
    pub fn new(horizontal: u16, vertical: u16) -> (m: Self)
        ensures
            m == (Margin { horizontal, vertical }),
    {
        Margin { horizontal, vertical }
    }
}

impl Rect {
    /// One past the last column, capped at the coordinate range.
    pub open spec fn right_edge(self) -> u16 {
        saturating_sum(self.x, self.width)
    }

    /// One past the last row, capped at the coordinate range.
    pub open spec fn bottom_edge(self) -> u16 {
        saturating_sum(self.y, self.height)
    }

    /// The rectangle pulled in by `margin` on every side, or the empty
    /// rectangle at the origin where the margins leave nothing.
    pub open spec fn inset(self, margin: Margin) -> Rect {
        let across = saturating_sum(margin.horizontal, margin.horizontal);
        let down = saturating_sum(margin.vertical, margin.vertical);
        if self.width < across || self.height < down {
            Rect { x: 0, y: 0, width: 0, height: 0 }
        } else {
            Rect {
                x: saturating_sum(self.x, margin.horizontal),
                y: saturating_sum(self.y, margin.vertical),
                width: saturating_diff(self.width, across),
                height: saturating_diff(self.height, down),
            }
        }
    }

    pub open spec fn holds(self, position: Position) -> bool {
        &&& self.x <= position.x < self.right_edge()
        &&& self.y <= position.y < self.bottom_edge()
    }

    /// The part shared with `other`; without area where they do not meet.
    pub open spec fn overlap(self, other: Rect) -> Rect {
        let x1 = larger(self.x, other.x);
        let y1 = larger(self.y, other.y);
        let x2 = smaller(self.right_edge(), other.right_edge());
        let y2 = smaller(self.bottom_edge(), other.bottom_edge());
        Rect { x: x1, y: y1, width: saturating_diff(x2, x1), height: saturating_diff(y2, y1) }
    }

    /// A rectangle of the given size centred in this one, never larger than it.
    pub open spec fn centered(self, width: u16, height: u16) -> Rect {
        Rect {
            x: (self.x + saturating_diff(self.width, width) / 2) as u16,
            y: (self.y + saturating_diff(self.height, height) / 2) as u16,
            width: smaller(width, self.width),
            height: smaller(height, self.height),
        }
    }

    pub fn new(x: u16, y: u16, width: u16, height: u16) -> (r: Self)
        ensures
            r == (Rect { x, y, width, height }),
    {
        Rect { x, y, width, height }
    }

    /// The number of cells covered.
    pub fn area(self) -> (cells: u32)
        ensures
            cells == self.width * self.height,
    {
        assert(self.width * self.height <= 0xffff * 0xffff) by (nonlinear_arith)
            requires
                self.width <= 0xffff,
                self.height <= 0xffff,
        ;
        (self.width as u32) * (self.height as u32)
    }

    pub fn right(self) -> (edge: u16)
        ensures
            edge == self.right_edge(),
    {
        self.x.saturating_add(self.width)
    }

    pub fn bottom(self) -> (edge: u16)
        ensures
            edge == self.bottom_edge(),
    {
        self.y.saturating_add(self.height)
    }

    pub fn inner(self, margin: Margin) -> (r: Rect)
        ensures
            r == self.inset(margin),
    {
        rect_inner(self, margin)
    }

    pub fn contains(self, position: Position) -> (inside: bool)
        ensures
            inside == self.holds(position),
    {
        rect_contains(self, position)
    }

    pub fn intersection(self, other: Rect) -> (r: Rect)
        ensures
            r == self.overlap(other),
    {
        rect_intersection(self, other)
    }

    pub fn inner_centered(&self, width: u16, height: u16) -> (r: Rect)
        requires
            self.x + saturating_diff(self.width, width) / 2 <= u16::MAX,
            self.y + saturating_diff(self.height, height) / 2 <= u16::MAX,
        ensures
            r == self.centered(width, height),
    {
        let x = self.x + self.width.saturating_sub(width) / 2;
        let y = self.y + self.height.saturating_sub(height) / 2;
        Rect {
            x,
            y,
            width: if width <= self.width { width } else { self.width },
            height: if height <= self.height { height } else { self.height },
        }
    }
}

/// `ratatui::layout::Rect::inner`: doubles each margin (saturating), gives the
/// zero rectangle where a doubled margin exceeds the side, and otherwise moves
/// the corner in by the margin and shortens both sides by the doubled margin
/// (all saturating).
#[verifier::external_body]
fn rect_inner(area: Rect, margin: Margin) -> (r: Rect)
    ensures
        r == area.inset(margin),
{
    let outer = ratatui::layout::Rect { x: area.x, y: area.y, width: area.width, height: area.height };
    let m = ratatui::layout::Margin { horizontal: margin.horizontal, vertical: margin.vertical };
    let inner = outer.inner(m);
    Rect { x: inner.x, y: inner.y, width: inner.width, height: inner.height }
}

/// `ratatui::layout::Rect::contains`: the position lies at or after the corner
/// and before the saturated right and bottom edges.
#[verifier::external_body]
fn rect_contains(area: Rect, position: Position) -> (inside: bool)
    ensures
        inside == area.holds(position),
{
    let outer = ratatui::layout::Rect { x: area.x, y: area.y, width: area.width, height: area.height };
    outer.contains(ratatui::layout::Position { x: position.x, y: position.y })
}

/// `ratatui::layout::Rect::intersection`: spans from the larger of the two
/// corners to the smaller of the two saturated far edges, with sides that
/// bottom out at zero.
#[verifier::external_body]
fn rect_intersection(a: Rect, b: Rect) -> (r: Rect)
    ensures
        r == a.overlap(b),
{
    let first = ratatui::layout::Rect { x: a.x, y: a.y, width: a.width, height: a.height };
    let second = ratatui::layout::Rect { x: b.x, y: b.y, width: b.width, height: b.height };
    let shared = first.intersection(second);
    Rect { x: shared.x, y: shared.y, width: shared.width, height: shared.height }
}

} // verus!
