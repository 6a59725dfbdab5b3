//! What the player's animation remembers from one tick to the next.

use crate::player::frames::{atlas_index, atlas_index_for, AnimMode, Facing};
use crate::player::timer::{AnimationTimer, ANIM_PERIOD_NANOS};
use vstd::prelude::*;

verus! {

/// The record that the movement update writes and the animation update
/// reads and advances.
#[derive(Clone, Copy, Debug, PartialEq, Eq, Structural)]
pub struct AnimationState {
    /// The animation that is playing.
    pub mode: AnimMode,
    /// The direction of the last movement.
    pub facing: Facing,
    /// Whether a direction was given in this tick.
    pub moving: bool,
    /// `moving` as the animation update last saw it.
    pub was_moving: bool,
    /// Ticks counted since the animation last started over.
    pub tick: u16,
}

/// Everything the animation of one player consists of: its state, its
/// timer and the cell of the sprite sheet on display.
#[derive(Clone, Copy, Debug, PartialEq, Eq, Structural)]
pub struct PlayerAnimation {
    /// Mode, facing and the counters of the animation.
    pub state: AnimationState,
    /// The timer that paces the pictures.
    pub timer: AnimationTimer,
    /// The cell of the sprite sheet on display, counted row by row.
    pub index: usize,
}

impl AnimationState {
    /// Movement began between the last animation update and this one.
    pub open spec fn just_started(self) -> bool {
        self.moving && !self.was_moving
    }

    /// Movement ended between the last animation update and this one.
    pub open spec fn just_stopped(self) -> bool {
        !self.moving && self.was_moving
    }

    /// The animation update can take this state: where it counts the tick,
    /// which it does unless movement has just started or stopped, the
    /// counter has room for one more.
    pub open spec fn countable(self) -> bool {
        self.just_started() || self.just_stopped() || self.tick < u16::MAX
    }

    /// The state of a player that has just appeared.
    pub open spec fn initial() -> AnimationState {
        AnimationState {
            mode: AnimMode::Idle,
            facing: Facing::Down,
            moving: false,
            was_moving: false,
            tick: 0,
        }
    }
}

/// The animation of a player that has just appeared: idle, looking down
/// towards the viewer, on the first picture of that row, with a full timer
/// period ahead.
pub fn spawn_player() -> (spawned: PlayerAnimation)
    ensures
        spawned.state == AnimationState::initial(),
        spawned.timer == (AnimationTimer { period_nanos: ANIM_PERIOD_NANOS, elapsed_nanos: 0 }),
        spawned.index == atlas_index(AnimMode::Idle, Facing::Down, 0),
        spawned.index == 18,
{
    let mode = AnimMode::Idle;
    let facing = Facing::Down;
    let start_index = atlas_index_for(mode, facing, 0);
    PlayerAnimation {
        state: AnimationState { mode, facing, moving: false, was_moving: false, tick: 0 },
        timer: AnimationTimer::new(ANIM_PERIOD_NANOS),
        index: start_index,
    }
}

} // verus!
