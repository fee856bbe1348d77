//! The animated sprite that plays the clips.
//!
//! The sprite is macroquad's `AnimatedSprite`, which the verifier cannot look
//! into. This module names the three things the scene has to know of a
//! sprite and states, without proof, what the sprite's constructor and two
//! of its methods do to them. Everything else in the crate is proved from
//! these statements.

use vstd::prelude::*;
use macroquad::experimental::animation::{AnimatedSprite, Animation};
use crate::animation::{clip_frames, Clip};

verus! {

/// macroquad's `AnimatedSprite`, carried as an opaque value.
#[verifier::external_type_specification]
#[verifier::external_body]
pub struct ExAnimatedSprite(macroquad::experimental::animation::AnimatedSprite);

/// The index of the animation that the sprite currently shows: what
/// `AnimatedSprite::current_animation` returns.
pub uninterp spec fn sprite_current(sprite: AnimatedSprite) -> usize;

/// The sprite's frame cursor: the index, within the current animation, of
/// the frame that `AnimatedSprite::frame` cuts out of the sheet.
pub uninterp spec fn sprite_cursor(sprite: AnimatedSprite) -> u32;

/// The frame counts of the animations that the sprite was made with, in the
/// order in which they were given.
pub uninterp spec fn sprite_frames(sprite: AnimatedSprite) -> Seq<u32>;

/// Calls `AnimatedSprite::new` with one animation per clip, field for field.
///
/// The new sprite keeps the animations in the given order, shows the first
/// of them and has its frame cursor at zero.
#[verifier::external_body]
pub(crate) fn new_sprite(
    tile_width: u32,
    tile_height: u32,
    clips: &Vec<Clip>,
    playing: bool,
) -> (sprite: AnimatedSprite)
    ensures
        sprite_current(sprite) == 0,
        sprite_cursor(sprite) == 0,
        sprite_frames(sprite) == clip_frames(clips@),
{
    let animations: Vec<Animation> = clips
        .iter()
        .map(|clip| Animation {
            name: clip.name.to_owned(),
            row: clip.row,
            frames: clip.frames,
            fps: clip.fps,
        })
        .collect();
    AnimatedSprite::new(tile_width, tile_height, &animations, playing)
}

/// `AnimatedSprite::set_animation` switches to the animation at the given
/// index and reduces the frame cursor modulo that animation's frame count.
/// It leaves the animations themselves alone.
///
/// The method indexes the animations and divides by the frame count, so the
/// index must be in range and the animation must have a frame.
pub assume_specification[ AnimatedSprite::set_animation ](
    sprite: &mut AnimatedSprite,
    animation: usize,
)
    requires
        animation < sprite_frames(*old(sprite)).len(),
        sprite_frames(*old(sprite))[animation as int] != 0,
    ensures
        sprite_current(*final(sprite)) == animation,
        sprite_cursor(*final(sprite)) == sprite_cursor(*old(sprite)) % sprite_frames(*old(sprite))[animation as int],
        sprite_frames(*final(sprite)) == sprite_frames(*old(sprite)),
;

/// `AnimatedSprite::current_animation` returns the index of the animation
/// that the sprite currently shows.
pub assume_specification[ AnimatedSprite::current_animation ](
    sprite: &AnimatedSprite,
) -> (animation: usize)
    ensures
        animation == sprite_current(*sprite),
;

} // verus!
