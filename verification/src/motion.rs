//! Motion resolution: from the directions pressed to a new position and facing.
//!
//! The two axes are resolved independently, the horizontal one first. Within
//! an axis the negative direction wins: left beats right and up beats down.
//! The facing follows the axis that was resolved last, so with input on both
//! axes the player faces up or down.

use vstd::prelude::*;
use crate::geometry::Point;
use crate::input::Directions;

verus! {

/// The direction a player faces: the last direction it moved in.
#[derive(Clone, Copy, Debug, PartialEq, Eq, Structural)]
pub enum LookAt {
    Up,
    Right,
    Left,
    Down,
}

/// The distance covered on one axis in one tick, in pixels.
pub const SPEED: i32 = 8;

/// The signed distance to move on one axis, given whether its negative and
/// its positive direction are pressed. The negative direction wins.
pub open spec fn axis_delta(negative: bool, positive: bool) -> int {
    if negative {
        -(SPEED as int)
    } else if positive {
        SPEED as int
    } else {
        0
    }
}

/// The coordinate nearest to `v` that the coordinate type can hold.
pub open spec fn clamp_coord(v: int) -> int {
    if v < i32::MIN {
        i32::MIN as int
    } else if v > i32::MAX {
        i32::MAX as int
    } else {
        v
    }
}

/// Where a coordinate ends up after one tick: it moves by the axis delta and
/// stops at the end of the coordinate range.
pub open spec fn moved_coord(coord: int, negative: bool, positive: bool) -> int {
    clamp_coord(coord + axis_delta(negative, positive))
}

/// The facing after one tick. The vertical axis is resolved last and so
/// decides when both axes have input; with no input the facing stays.
pub open spec fn turned(facing: LookAt, pressed: Directions) -> LookAt {
    if pressed.up {
        LookAt::Up
    } else if pressed.down {
        LookAt::Down
    } else if pressed.left {
        LookAt::Left
    } else if pressed.right {
        LookAt::Right
    } else {
        facing
    }
}

/// Moves one coordinate by one tick.
fn move_coord(coord: i32, negative: bool, positive: bool) -> (moved: i32)
    ensures
        moved == moved_coord(coord as int, negative, positive),
{
    if negative {
        if coord >= i32::MIN + SPEED {
            coord - SPEED
        } else {
            i32::MIN
        }
    } else if positive {
        if coord <= i32::MAX - SPEED {
            coord + SPEED
        } else {
            i32::MAX
        }
    } else {
        coord
    }
}

/// Resolves one tick of motion: the new position and the new facing.
pub fn resolve_motion(
    position: Point,
    facing: LookAt,
    pressed: &Directions,
) -> (resolved: (Point, LookAt))
    ensures
        resolved.0.x == moved_coord(position.x as int, pressed.left, pressed.right),
        resolved.0.y == moved_coord(position.y as int, pressed.up, pressed.down),
        resolved.1 == turned(facing, *pressed),
{
    let mut facing = facing;
    let x: i32 = move_coord(position.x, pressed.left, pressed.right);
    if pressed.left {
        facing = LookAt::Left;
    } else if pressed.right {
        facing = LookAt::Right;
    }
    let y: i32 = move_coord(position.y, pressed.up, pressed.down);
    if pressed.up {
        facing = LookAt::Up;
    } else if pressed.down {
        facing = LookAt::Down;
    }
    (Point { x, y }, facing)
}

} // verus!
