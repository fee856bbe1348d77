//! Depth composition: whether the player is drawn behind or in front of the
//! foreground object.
//!
//! The decision is taken anew on every tick from the player's height on the
//! screen alone. Nothing is remembered, so a player that moves back and forth
//! across the threshold changes layer each time.

use vstd::prelude::*;

verus! {

/// The gap kept between the threshold and the top of the foreground object.
pub const DEPTH_MARGIN: u32 = 40;

/// The order in which the player and the foreground object are drawn.
#[derive(Clone, Copy, Debug, PartialEq, Eq, Structural)]
pub enum DrawOrder {
    /// The player first, the foreground object on top of it.
    PlayerFirst,
    /// The foreground object first, the player on top of it.
    ForegroundFirst,
}

/// The height on the screen above which the player is behind the object:
/// the vertical centre of the viewport, less the object's height, less the
/// margin.
pub open spec fn depth_threshold(viewport_height: u32, foreground_height: u32) -> int {
    viewport_height as int / 2 - foreground_height - DEPTH_MARGIN
}

/// The draw order for a player whose top edge is at `y`.
pub open spec fn draw_order_spec(y: int, viewport_height: u32, foreground_height: u32) -> DrawOrder {
    if y < depth_threshold(viewport_height, foreground_height) {
        DrawOrder::PlayerFirst
    } else {
        DrawOrder::ForegroundFirst
    }
}

/// Decides the draw order for a player whose top edge is at `y`.
pub fn draw_order(y: i32, viewport_height: u32, foreground_height: u32) -> (order: DrawOrder)
    ensures
        order == draw_order_spec(y as int, viewport_height, foreground_height),
{
    let threshold: i64 = (viewport_height / 2) as i64 - foreground_height as i64
        - DEPTH_MARGIN as i64;
    if (y as i64) < threshold {
        DrawOrder::PlayerFirst
    } else {
        DrawOrder::ForegroundFirst
    }
}

/// For a given viewport and foreground object the draw order changes at one
/// height only: the order at `y` and the order at `y + 1` differ exactly
/// when `y + 1` is the threshold. Above the threshold on the screen the
/// player is always first, from the threshold downwards never.
pub proof fn lemma_depth_single_crossing(y: int, viewport_height: u32, foreground_height: u32)
    ensures
        (draw_order_spec(y, viewport_height, foreground_height) == DrawOrder::PlayerFirst) <==> y
            < depth_threshold(viewport_height, foreground_height),
        (draw_order_spec(y, viewport_height, foreground_height) != draw_order_spec(
            y + 1,
            viewport_height,
            foreground_height,
        )) <==> y + 1 == depth_threshold(viewport_height, foreground_height),
{
}

} // verus!
