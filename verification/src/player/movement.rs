//! The movement update: from a direction to a facing and a "moving" flag.

use crate::control::Direction;
use crate::player::frames::Facing;
use crate::player::state::AnimationState;
use vstd::prelude::*;

verus! {

/// How far the player moves in a second, in units of distance.
pub const MOVE_SPEED: u32 = 140;

/// The length of a step along one axis, whatever its sign.
pub open spec fn magnitude(v: int) -> int {
    if v < 0 {
        -v
    } else {
        v
    }
}

/// The facing of a player that moves in `direction`: sideways where the
/// direction is more horizontal than vertical, else up or down. A diagonal
/// counts as vertical.
pub open spec fn facing_toward(direction: Direction) -> Facing {
    if magnitude(direction.x as int) > magnitude(direction.y as int) {
        if direction.x > 0 {
            Facing::Right
        } else {
            Facing::Left
        }
    } else {
        if direction.y > 0 {
            Facing::Up
        } else {
            Facing::Down
        }
    }
}

/// The state after the movement update has seen `direction`. Standing still
/// keeps the facing.
pub open spec fn moved(state: AnimationState, direction: Direction) -> AnimationState {
    if direction.is_zero() {
        AnimationState { moving: false, ..state }
    } else {
        AnimationState { moving: true, facing: facing_toward(direction), ..state }
    }
}

fn step_length(v: i32) -> (length: u32)
    ensures
        length == magnitude(v as int),
{
    if v >= 0 {
        v as u32
    } else if v == i32::MIN {
        0x8000_0000
    } else {
        (-v) as u32
    }
}

/// Records the direction of this tick's input: whether the player moves,
/// and if so, which way it now faces.
pub fn move_player(anim: &mut AnimationState, direction: Direction)
    ensures
        *final(anim) == moved(*old(anim), direction),
{
    if direction.x != 0 || direction.y != 0 {
        anim.moving = true;
        if step_length(direction.x) > step_length(direction.y) {
            anim.facing = if direction.x > 0 {
                Facing::Right
            } else {
                Facing::Left
            };
        } else {
            anim.facing = if direction.y > 0 {
                Facing::Up
            } else {
                Facing::Down
            };
        }
    } else {
        anim.moving = false;
    }
}

} // verus!
