//! Character control for a small walk-around scene.
//!
//! Once per tick the scene samples the keyboard, moves the player, selects
//! the animation clip that matches the player's facing and motion, detects an
//! interaction with the plate in the middle of the viewport, and decides
//! whether the player is drawn behind or in front of it.
//!
//! Everything here works on whole pixels. The host reads the devices, calls
//! [`Player::tick`] and draws what the returned [`Frame`] describes.

pub mod animation;
pub mod depth;
pub mod geometry;
pub mod input;
pub mod interaction;
pub mod laws;
pub mod motion;
pub mod player;
pub mod sprite;

pub use animation::{Clip, ConfigError, Pose, CLIP_COUNT};
pub use geometry::{Point, Rect, Viewport};
pub use input::{Directions, Input, KeyState};
pub use depth::DrawOrder;
pub use interaction::InteractionEvent;
pub use motion::{LookAt, SPEED};
pub use player::{Frame, Player};
