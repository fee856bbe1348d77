//! What holds of the scene from tick to tick.
//!
//! The statements here relate several functions of the crate, or speak of a
//! whole run of ticks. Each is proved from the definitions that the
//! contracts of those functions use.

use vstd::prelude::*;
use crate::animation::clip_index_spec;
use crate::geometry::Viewport;
use crate::input::{Directions, KeyState};
use crate::interaction::in_reach;
use crate::motion::{LookAt, SPEED};
use crate::player::{advance, PlayerView};

verus! {

/// The clip depends on nothing but the facing and on whether a direction is
/// pressed: two ticks that end with the same facing and agree on whether the
/// player moves select the same clip, whatever else differs between them.
pub proof fn lemma_clip_follows_facing_and_motion(
    a: PlayerView,
    pressed_a: Directions,
    b: PlayerView,
    pressed_b: Directions,
)
    requires
        advance(a, pressed_a).facing == advance(b, pressed_b).facing,
        pressed_a.any() == pressed_b.any(),
    ensures
        advance(a, pressed_a).clip == advance(b, pressed_b).clip,
        advance(a, pressed_a).clip == clip_index_spec(advance(a, pressed_a).facing, pressed_a.any()),
{
}

/// A tick on which no direction is pressed leaves the facing as it was and
/// selects the idle clip of that facing. It does not move the player.
pub proof fn lemma_idle_keeps_facing(player: PlayerView, pressed: Directions)
    requires
        !pressed.any(),
    ensures
        advance(player, pressed).facing == player.facing,
        advance(player, pressed).clip == clip_index_spec(player.facing, false),
        player.in_range() ==> advance(player, pressed).x == player.x && advance(player, pressed).y
            == player.y,
{
}

/// A tick on which only "right" is pressed moves the player right by the
/// speed, leaves its height alone and turns it to the right, provided that
/// the coordinate range has room for the move.
pub proof fn lemma_right_moves_right(player: PlayerView, pressed: Directions)
    requires
        player.in_range(),
        player.x + SPEED <= i32::MAX,
        pressed.right,
        !pressed.left,
        !pressed.up,
        !pressed.down,
    ensures
        advance(player, pressed).x == player.x + SPEED,
        advance(player, pressed).y == player.y,
        advance(player, pressed).facing == LookAt::Right,
        advance(player, pressed).clip == clip_index_spec(LookAt::Right, true),
{
}

/// With input on both axes both coordinates move, and the vertical axis,
/// which is resolved last, decides the facing.
pub proof fn lemma_vertical_axis_decides_facing(player: PlayerView, pressed: Directions)
    requires
        pressed.up || pressed.down,
    ensures
        advance(player, pressed).facing == if pressed.up {
            LookAt::Up
        } else {
            LookAt::Down
        },
{
}

/// What the host supplies on one tick.
pub struct TickInput {
    pub keys: KeyState,
    pub viewport: Viewport,
}

/// The player after a run of ticks, oldest first.
pub open spec fn play(player: PlayerView, run: Seq<TickInput>) -> PlayerView
    decreases run.len(),
{
    if run.len() == 0 {
        player
    } else {
        advance(play(player, run.drop_last()), run.last().keys.directions())
    }
}

/// Whether the player touches the trigger zone at the end of the last tick
/// of a run.
pub open spec fn touches(player: PlayerView, run: Seq<TickInput>) -> bool
    recommends
        run.len() > 0,
{
    in_reach(play(player, run).x, play(player, run).y, run.last().viewport)
}

/// Whether the last tick of a run emits the interaction event: the player,
/// once moved, touches the trigger zone and the interaction key went down
/// on that tick.
pub open spec fn fires(player: PlayerView, run: Seq<TickInput>) -> bool
    recommends
        run.len() > 0,
{
    touches(player, run) && run.last().keys.interact_pressed
}

/// The number of interaction events that a run of ticks emits.
pub open spec fn events(player: PlayerView, run: Seq<TickInput>) -> nat
    decreases run.len(),
{
    if run.len() == 0 {
        0
    } else {
        events(player, run.drop_last()) + if fires(player, run) {
            1nat
        } else {
            0nat
        }
    }
}

/// The number of ticks of a run on which the interaction key went down.
pub open spec fn presses(run: Seq<TickInput>) -> nat
    decreases run.len(),
{
    if run.len() == 0 {
        0
    } else {
        presses(run.drop_last()) + if run.last().keys.interact_pressed {
            1nat
        } else {
            0nat
        }
    }
}

/// A run never emits more events than the interaction key had press edges:
/// a key that is held down over many ticks counts once, however long the
/// player stays on the plate.
pub proof fn lemma_events_bounded_by_presses(player: PlayerView, run: Seq<TickInput>)
    ensures
        events(player, run) <= presses(run),
    decreases run.len(),
{
    if run.len() > 0 {
        lemma_events_bounded_by_presses(player, run.drop_last());
    }
}

/// While the player touches the trigger zone at the end of every tick of a
/// run, the run emits exactly one event per press edge.
pub proof fn lemma_one_event_per_press(player: PlayerView, run: Seq<TickInput>)
    requires
        forall|n: int| 1 <= n <= run.len() ==> touches(player, #[trigger] run.take(n)),
    ensures
        events(player, run) == presses(run),
    decreases run.len(),
{
    if run.len() > 0 {
        let shorter = run.drop_last();
        assert forall|n: int| 1 <= n <= shorter.len() implies touches(
            player,
            #[trigger] shorter.take(n),
        ) by {
            assert(shorter.take(n) == run.take(n));
        }
        lemma_one_event_per_press(player, shorter);
        assert(run.take(run.len() as int) == run);
    }
}

} // verus!
