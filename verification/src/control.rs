//! From the keys that are held down to a direction of movement.

use vstd::prelude::*;

verus! {

/// Which of the eight movement keys are held down.
#[derive(Clone, Copy, Debug, PartialEq, Eq, Structural)]
pub struct KeyState {
    pub arrow_left: bool,
    pub arrow_right: bool,
    pub arrow_up: bool,
    pub arrow_down: bool,
    pub key_a: bool,
    pub key_d: bool,
    pub key_w: bool,
    pub key_s: bool,
}

/// A direction in the plane, given by whole steps along the two axes.
/// `x` grows to the right and `y` grows upwards. Only the direction counts,
/// not the length.
#[derive(Clone, Copy, Debug, PartialEq, Eq, Structural)]
pub struct Direction {
    pub x: i32,
    pub y: i32,
}

/// What one axis contributes: a step forward if the forward key is held,
/// a step back if the backward key is held, and both at once cancel.
pub open spec fn axis(forward: bool, backward: bool) -> int {
    (if forward { 1int } else { 0int }) - (if backward { 1int } else { 0int })
}

impl KeyState {
    pub open spec fn left(self) -> bool {
        self.arrow_left || self.key_a
    }

    pub open spec fn right(self) -> bool {
        self.arrow_right || self.key_d
    }

    pub open spec fn up(self) -> bool {
        self.arrow_up || self.key_w
    }

    pub open spec fn down(self) -> bool {
        self.arrow_down || self.key_s
    }
}

impl Direction {
    /// The direction of standing still.
    pub open spec fn is_zero(self) -> bool {
        self.x == 0 && self.y == 0
    }
}

/// The direction that the held keys ask for. The arrow keys and W, A, S, D
/// count alike, and opposite keys cancel.
pub fn get_input_direction(input: KeyState) -> (direction: Direction)
    ensures
        direction.x == axis(input.right(), input.left()),
        direction.y == axis(input.up(), input.down()),
{
    let mut direction = Direction { x: 0, y: 0 };
    if input.arrow_left || input.key_a {
        direction.x = direction.x - 1;
    }
    if input.arrow_right || input.key_d {
        direction.x = direction.x + 1;
    }
    if input.arrow_up || input.key_w {
        direction.y = direction.y + 1;
    }
    if input.arrow_down || input.key_s {
        direction.y = direction.y - 1;
    }
    direction
}

} // verus!
