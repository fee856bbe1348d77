//! Interaction detection: the player against the plate in the middle of the
//! viewport, and the key that triggers it.

use vstd::prelude::*;
use crate::geometry::{Bounds, Point, Rect, Viewport};

verus! {

/// The width and the height of the player's bounding rectangle.
pub const PLAYER_SIZE: u32 = 96;

/// The width of the trigger zone.
pub const ZONE_WIDTH: u32 = 96;

/// The height of the trigger zone.
pub const ZONE_HEIGHT: u32 = 64;

/// How far the zone's top-left corner lies left of and above the centre of
/// the viewport.
pub const ZONE_OFFSET: i32 = 48;

/// The signal that the player has used the plate. It carries nothing; the
/// host decides what follows.
#[derive(Clone, Copy, Debug, PartialEq, Eq, Structural)]
pub struct InteractionEvent;

/// The region of the trigger zone in a viewport.
pub open spec fn zone_bounds(viewport: Viewport) -> Bounds {
    Bounds {
        left: viewport.center_x() - ZONE_OFFSET,
        top: viewport.center_y() - ZONE_OFFSET,
        right: viewport.center_x() - ZONE_OFFSET + ZONE_WIDTH,
        bottom: viewport.center_y() - ZONE_OFFSET + ZONE_HEIGHT,
    }
}

/// The region that a player at `(x, y)` occupies.
pub open spec fn player_bounds(x: int, y: int) -> Bounds {
    Bounds { left: x, top: y, right: x + PLAYER_SIZE, bottom: y + PLAYER_SIZE }
}

/// Whether a player at `(x, y)` touches the trigger zone.
pub open spec fn in_reach(x: int, y: int, viewport: Viewport) -> bool {
    zone_bounds(viewport).overlaps(player_bounds(x, y))
}

/// Places the trigger zone in the viewport.
pub fn trigger_zone(viewport: &Viewport) -> (zone: Rect)
    ensures
        zone@ == zone_bounds(*viewport),
{
    let center = viewport.center();
    Rect { x: center.x - ZONE_OFFSET, y: center.y - ZONE_OFFSET, w: ZONE_WIDTH, h: ZONE_HEIGHT }
}

/// The bounding rectangle of a player at `position`.
pub fn player_rect(position: Point) -> (rect: Rect)
    ensures
        rect@ == player_bounds(position.x as int, position.y as int),
{
    Rect { x: position.x, y: position.y, w: PLAYER_SIZE, h: PLAYER_SIZE }
}

/// Emits the event when the player touches the zone and the interaction key
/// went down on this tick, and only then.
pub fn interaction(overlap: bool, pressed: bool) -> (event: Option<InteractionEvent>)
    ensures
        event.is_some() == (overlap && pressed),
{
    if overlap && pressed {
        Some(InteractionEvent)
    } else {
        None
    }
}

} // verus!
