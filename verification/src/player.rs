//! The player and the frame driver.
//!
//! [`Player::tick`] runs one tick in a fixed order: sample the input,
//! resolve the motion, select the clip, detect the interaction, decide the
//! draw order. The host then advances the sprite's playback clock and draws.

use vstd::prelude::*;
use macroquad::experimental::animation::AnimatedSprite;
use crate::animation::{
    catalog,
    catalog_spec,
    clip_for,
    clip_frames,
    clip_index,
    clip_index_spec,
    pose_at,
    CLIP_COUNT,
};
use crate::depth::{draw_order, draw_order_spec, DrawOrder};
use crate::geometry::{Point, Viewport};
use crate::input::{Directions, KeyState};
use crate::interaction::{in_reach, interaction, player_rect, trigger_zone, InteractionEvent};
use crate::motion::{moved_coord, resolve_motion, turned, LookAt};
use crate::sprite::{new_sprite, sprite_current, sprite_cursor, sprite_frames};

verus! {

/// The width and the height of one tile of a sprite sheet.
pub const TILE_SIZE: u32 = 32;

/// The player: where it stands, where it looks, and the sprite that shows it.
pub struct Player {
    pub position: Point,
    pub look_at: LookAt,
    pub animations: AnimatedSprite,
}

/// What a player is, mathematically.
pub struct PlayerView {
    /// The x coordinate of the top-left corner.
    pub x: int,
    /// The y coordinate of the top-left corner.
    pub y: int,
    /// The facing.
    pub facing: LookAt,
    /// The index of the clip that the sprite shows.
    pub clip: int,
    /// The sprite's frame cursor within that clip.
    pub cursor: int,
}

/// What one tick hands to the host for drawing and navigation.
#[derive(Clone, Copy, Debug, PartialEq, Eq, Structural)]
pub struct Frame {
    /// The clip to draw, which is also the index of its sprite sheet.
    pub clip: usize,
    /// Whether the player touches the trigger zone, for the prompt.
    pub overlap: bool,
    /// The interaction event, if this tick emits it.
    pub event: Option<InteractionEvent>,
    /// The order in which to draw the player and the foreground object.
    pub order: DrawOrder,
}

impl View for Player {
    type V = PlayerView;

    open spec fn view(&self) -> PlayerView {
        PlayerView {
            x: self.position.x as int,
            y: self.position.y as int,
            facing: self.look_at,
            clip: sprite_current(self.animations) as int,
            cursor: sprite_cursor(self.animations) as int,
        }
    }
}

impl PlayerView {
    /// Whether both coordinates are within the coordinate range, as they
    /// are for every player that exists.
    pub open spec fn in_range(self) -> bool {
        i32::MIN <= self.x <= i32::MAX && i32::MIN <= self.y <= i32::MAX
    }
}

/// The number of frames of the clip at `index` of the catalog.
pub open spec fn frames_at(index: int) -> int {
    clip_for(pose_at(index)).frames as int
}

/// The player after one tick on which `pressed` are the directions pressed.
///
/// The position moves, the facing turns, and the clip is the one that the
/// table gives for the new facing and for whether any direction is pressed.
/// The frame cursor is carried over into the selected clip, wrapped to that
/// clip's length.
pub open spec fn advance(player: PlayerView, pressed: Directions) -> PlayerView {
    let facing = turned(player.facing, pressed);
    let clip = clip_index_spec(facing, pressed.any());
    PlayerView {
        x: moved_coord(player.x, pressed.left, pressed.right),
        y: moved_coord(player.y, pressed.up, pressed.down),
        facing,
        clip,
        cursor: player.cursor % frames_at(clip),
    }
}

impl Player {
    /// Whether the sprite holds the catalog and shows a frame of a clip of
    /// the current facing.
    pub open spec fn wf(&self) -> bool {
        &&& sprite_frames(self.animations) == clip_frames(catalog_spec())
        &&& self@.clip < CLIP_COUNT
        &&& pose_at(self@.clip).facing == self.look_at
        &&& self@.cursor < frames_at(self@.clip)
    }

    /// Creates a player at `position`, facing down and standing still.
    pub fn new(position: Point) -> (player: Player)
        ensures
            player.wf(),
            player@ == (PlayerView {
                x: position.x as int,
                y: position.y as int,
                facing: LookAt::Down,
                clip: 0,
                cursor: 0,
            }),
    {
        let clips = catalog();
        let animations = new_sprite(TILE_SIZE, TILE_SIZE, &clips, true);
        Player { position, look_at: LookAt::Down, animations }
    }

    /// Reports whether any of the eight movement keys is held on this tick.
    /// The answer goes by the keys alone: a player that cannot move any
    /// further still counts as moving.
    pub fn is_moving(&self, keys: &KeyState) -> (moving: bool)
        ensures
            moving == keys.directions().any(),
    {
        keys.w || keys.up || keys.s || keys.down || keys.d || keys.right || keys.a || keys.left
    }

    /// The index of the clip that the sprite shows.
    pub fn clip(&self) -> (index: usize)
        ensures
            index == self@.clip,
    {
        self.animations.current_animation()
    }

    /// Runs one tick.
    ///
    /// `keys` is the keyboard as sampled on this tick, `viewport` the current
    /// size of the drawing surface and `foreground_height` the height of the
    /// foreground object as drawn.
    pub fn tick(
        &mut self,
        keys: &KeyState,
        viewport: &Viewport,
        foreground_height: u32,
    ) -> (frame: Frame)
        requires
            old(self).wf(),
        ensures
            final(self).wf(),
            final(self)@ == advance(old(self)@, keys.directions()),
            frame.clip == final(self)@.clip,
            frame.overlap == in_reach(final(self)@.x, final(self)@.y, *viewport),
            frame.event.is_some() == (frame.overlap && keys.interact_pressed),
            frame.order == draw_order_spec(final(self)@.y, viewport.height, foreground_height),
    {
        let input = keys.sample();
        let (position, facing) = resolve_motion(self.position, self.look_at, &input.directions);
        self.position = position;
        self.look_at = facing;
        let clip = clip_index(facing, self.is_moving(keys));
        self.animations.set_animation(clip);
        let zone = trigger_zone(viewport);
        let bounds = player_rect(position);
        let overlap = zone.overlaps(&bounds);
        let event = interaction(overlap, input.interact);
        let order = draw_order(position.y, viewport.height, foreground_height);
        Frame { clip, overlap, event, order }
    }
}

} // verus!
