//! Working out which part of one grid lands on another when it is copied
//! across at an offset.

use crate::geometry::{Offset, Position, Size};
use vstd::prelude::*;

verus! {

/// The columns and rows of a source grid that a copy takes: column `x` with
/// `from_x <= x < to_x`, row `y` with `from_y <= y < to_y`.
#[derive(Clone, Copy, Debug, PartialEq, Eq, Structural)]
pub struct BlitRegion {
    pub from_x: u16,
    pub to_x: u16,
    pub from_y: u16,
    pub to_y: u16,
}

/// The first source index that lands at or after the start of the target.
pub open spec fn first_visible(offset: i32) -> int {
    if offset < 0 {
        -offset
    } else {
        0
    }
}

/// One past the last source index that lands before the end of the target.
pub open spec fn end_visible(len: u16, target: u16, offset: i32) -> int {
    if target - offset < len {
        target - offset
    } else {
        len as int
    }
}

/// The part of a source of the given size that lands inside a target of the
/// given size when the source's corner is placed at `offset`; none where the
/// two do not meet.
pub open spec fn visible_region(source: Size, target: Size, offset: Offset) -> Option<BlitRegion> {
    let from_x = first_visible(offset.x);
    let to_x = end_visible(source.width, target.width, offset.x);
    let from_y = first_visible(offset.y);
    let to_y = end_visible(source.height, target.height, offset.y);
    if from_x < to_x && from_y < to_y {
        Some(
            BlitRegion {
                from_x: from_x as u16,
                to_x: to_x as u16,
                from_y: from_y as u16,
                to_y: to_y as u16,
            },
        )
    } else {
        None
    }
}

fn clip_axis(len: u16, target: u16, offset: i32) -> (range: Option<(u16, u16)>)
    ensures
        first_visible(offset) < end_visible(len, target, offset) ==> range == Some(
            (first_visible(offset) as u16, end_visible(len, target, offset) as u16),
        ),
        first_visible(offset) >= end_visible(len, target, offset) ==> range.is_none(),
{
    let from: i64 = if offset < 0 {
        -(offset as i64)
    } else {
        0
    };
    let room: i64 = target as i64 - offset as i64;
    let to: i64 = if room < len as i64 {
        room
    } else {
        len as i64
    };
    if from < to {
        Some((from as u16, to as u16))
    } else {
        None
    }
}

/// The region of a source grid to copy onto a target grid at `offset`.
/// Whatever falls outside the target is clipped on all four sides; an offset
/// that puts the whole source outside leaves nothing to copy.
pub fn blit_region(source: Size, target: Size, offset: Offset) -> (region: Option<BlitRegion>)
    ensures
        region == visible_region(source, target, offset),
        region matches Some(r) ==> r.from_x < r.to_x <= source.width && r.from_y < r.to_y
            <= source.height,
{
    match (
        clip_axis(source.width, target.width, offset.x),
        clip_axis(source.height, target.height, offset.y),
    ) {
        (Some((from_x, to_x)), Some((from_y, to_y))) => Some(
            BlitRegion { from_x, to_x, from_y, to_y },
        ),
        _ => None,
    }
}

/// Where the source cell at `pos` lands in the target.
pub fn blit_target(pos: Position, offset: Offset) -> (target: Position)
    requires
        0 <= pos.x + offset.x <= u16::MAX,
        0 <= pos.y + offset.y <= u16::MAX,
    ensures
        target.x == pos.x + offset.x,
        target.y == pos.y + offset.y,
{
    Position { x: (pos.x as i32 + offset.x) as u16, y: (pos.y as i32 + offset.y) as u16 }
}

/// Every cell of the region lands inside the target.
pub proof fn lemma_region_lands_inside(source: Size, target: Size, offset: Offset, x: int, y: int)
    requires
        visible_region(source, target, offset) matches Some(r) && r.from_x <= x < r.to_x
            && r.from_y <= y < r.to_y,
    ensures
        0 <= x < source.width,
        0 <= y < source.height,
        0 <= x + offset.x < target.width,
        0 <= y + offset.y < target.height,
{
}

} // verus!
