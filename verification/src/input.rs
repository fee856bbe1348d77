//! Input sampling: from the keys held on one tick to the directions pressed.

use vstd::prelude::*;

verus! {

/// What the keyboard reports on one tick.
///
/// Each direction has two bindings, a letter key and an arrow key. The eight
/// movement fields say whether the key is held down on this tick. The
/// interaction key is reported by its edge: `interact_pressed` is true only on
/// the tick on which the key goes down, not while it stays held.
#[derive(Clone, Copy, Debug, PartialEq, Eq, Structural)]
pub struct KeyState {
    pub w: bool,
    pub up: bool,
    pub s: bool,
    pub down: bool,
    pub d: bool,
    pub right: bool,
    pub a: bool,
    pub left: bool,
    pub interact_pressed: bool,
}

/// The directions that are logically pressed on one tick.
#[derive(Clone, Copy, Debug, PartialEq, Eq, Structural)]
pub struct Directions {
    pub up: bool,
    pub down: bool,
    pub left: bool,
    pub right: bool,
}

/// One tick's input, as the rest of the scene consumes it.
#[derive(Clone, Copy, Debug, PartialEq, Eq, Structural)]
pub struct Input {
    pub directions: Directions,
    pub interact: bool,
}

impl Directions {
    /// Whether at least one direction is pressed.
    pub open spec fn any(self) -> bool {
        self.up || self.down || self.left || self.right
    }

    /// Tests whether at least one direction is pressed.
    pub fn is_any(&self) -> (pressed: bool)
        ensures
            pressed == self.any(),
    {
        self.up || self.down || self.left || self.right
    }
}

impl KeyState {
    /// A direction is pressed when either of its two bindings is held.
    pub open spec fn directions(self) -> Directions {
        Directions {
            up: self.w || self.up,
            down: self.s || self.down,
            left: self.a || self.left,
            right: self.d || self.right,
        }
    }

    /// The input of this tick: the directions pressed and the interaction edge.
    pub open spec fn input(self) -> Input {
        Input { directions: self.directions(), interact: self.interact_pressed }
    }

    /// Samples the input of this tick.
    pub fn sample(&self) -> (input: Input)
        ensures
            input == self.input(),
    {
        Input {
            directions: Directions {
                up: self.w || self.up,
                down: self.s || self.down,
                left: self.a || self.left,
                right: self.d || self.right,
            },
            interact: self.interact_pressed,
        }
    }
}

} // verus!
