//! The animation update: which mode plays and which cell of the sprite
//! sheet is shown after one more tick.

use crate::player::frames::{
    atlas_index, atlas_index_for, block_width, row, row_start_index, AnimMode, Facing, MAX_FRAMES,
    SHEET_CELLS,
};
use crate::player::state::{AnimationState, PlayerAnimation};
use crate::player::timer::AnimationTimer;
use vstd::prelude::*;

verus! {

/// Outside of a start or stop of movement, only every third tick is looked
/// at any further.
pub const TICKS_PER_FRAME: u16 = 3;

/// The tick counter starts over once it has passed this count.
pub const TICK_LIMIT: u16 = 10000;

/// A counter above this turns idling into thrusting and walking into
/// running.
pub const RESTLESS_AFTER: u16 = 500;

/// A counter above this turns thrusting into jumping.
pub const JUMPING_AFTER: u16 = 800;

/// The cell one picture further along the row of `mode` and `facing`, going
/// by the column of `index` and starting the row over after its last
/// picture.
pub open spec fn next_frame(index: usize, mode: AnimMode, facing: Facing) -> usize {
    (9 * row(mode, facing) + (index % 9 + 1) % (mode.width() as int)) as usize
}

/// The mode that `mode` grows into once the counter stands at `tick`.
/// Running and jumping stay as they are.
pub open spec fn escalated(mode: AnimMode, tick: u16) -> AnimMode {
    if tick > JUMPING_AFTER && mode == AnimMode::Thrusting {
        AnimMode::Jumping
    } else if tick > RESTLESS_AFTER {
        match mode {
            AnimMode::Idle => AnimMode::Thrusting,
            AnimMode::Walking => AnimMode::Running,
            _ => mode,
        }
    } else {
        mode
    }
}

impl PlayerAnimation {
    /// The cell on display lies outside the row of the current mode and
    /// facing: one of the two has changed since the cell was chosen.
    pub open spec fn off_row(self) -> bool {
        self.index / 9 != row(self.state.mode, self.state.facing)
    }

    /// The first thing every update does: a cell outside the current row is
    /// replaced by the first picture of the current row, and the timer
    /// starts its period again.
    pub open spec fn snapped(self) -> PlayerAnimation {
        if self.off_row() {
            PlayerAnimation {
                state: self.state,
                timer: self.timer.after_reset(),
                index: atlas_index(self.state.mode, self.state.facing, 0) as usize,
            }
        } else {
            self
        }
    }

    /// Neither start nor stop, and the counter does not land on a third
    /// tick: the update only counts.
    pub open spec fn throttled(self) -> bool {
        &&& !self.state.just_started()
        &&& !self.state.just_stopped()
        &&& (self.state.tick + 1) % 3 != 0
    }

    /// A start or stop of movement: the new mode begins at once, one picture
    /// on, with the counter and the timer at zero.
    pub open spec fn turned_to(self, mode: AnimMode) -> PlayerAnimation {
        PlayerAnimation {
            state: AnimationState {
                mode,
                facing: self.state.facing,
                moving: self.state.moving,
                was_moving: self.state.moving,
                tick: 0,
            },
            timer: self.timer.after_reset(),
            index: next_frame(self.index, mode, self.state.facing),
        }
    }

    /// A tick that only counts.
    pub open spec fn counted(self) -> PlayerAnimation {
        PlayerAnimation {
            state: AnimationState { tick: (self.state.tick + 1) as u16, ..self.state },
            timer: self.timer,
            index: self.index,
        }
    }

    /// A third tick without start or stop: the counter goes up and starts
    /// over past its limit, the mode grows by the new count, the timer
    /// moves on by `delta_nanos`, and if it completes a period the next
    /// picture of the row of the mode just reached is shown.
    pub open spec fn continued(self, delta_nanos: u64) -> PlayerAnimation {
        let counted = self.state.tick + 1;
        let tick = if counted > TICK_LIMIT { 0u16 } else { counted as u16 };
        let mode = escalated(self.state.mode, tick);
        PlayerAnimation {
            state: AnimationState {
                mode,
                facing: self.state.facing,
                moving: self.state.moving,
                was_moving: self.state.moving,
                tick,
            },
            timer: self.timer.after_tick(delta_nanos),
            index: if self.timer.completes(delta_nanos) {
                next_frame(self.index, mode, self.state.facing)
            } else {
                self.index
            },
        }
    }

    /// The animation after one update in which `delta_nanos` have passed.
    pub open spec fn animated(self, delta_nanos: u64) -> PlayerAnimation {
        let on_row = self.snapped();
        if on_row.state.just_started() {
            on_row.turned_to(AnimMode::Walking)
        } else if on_row.state.just_stopped() {
            on_row.turned_to(AnimMode::Idle)
        } else if on_row.throttled() {
            on_row.counted()
        } else {
            on_row.continued(delta_nanos)
        }
    }
}

/// The cell one picture further along the row of `mode` and `facing`.
fn advance_frame(current_col: usize, mode: AnimMode, facing: Facing) -> (index: usize)
    requires
        current_col < MAX_FRAMES,
    ensures
        index == 9 * row(mode, facing) + (current_col + 1) % (mode.width() as int),
        index < SHEET_CELLS,
{
    let row_start = atlas_index_for(mode, facing, 0);
    let next_col = (current_col + 1) % block_width(mode);
    row_start + next_col
}

/// One animation update of the player, to be run after this tick's
/// movement update. `delta_nanos` is the time since the last tick.
///
/// Unless movement has just started or stopped, the tick counter must be
/// below the largest number its type holds.
pub fn animate_player(
    anim: &mut AnimationState,
    timer: &mut AnimationTimer,
    index: &mut usize,
    delta_nanos: u64,
)
    requires
        old(anim).countable(),
    ensures
        (PlayerAnimation { state: *final(anim), timer: *final(timer), index: *final(index) })
            == (PlayerAnimation {
            state: *old(anim),
            timer: *old(timer),
            index: *old(index),
        }).animated(delta_nanos),
        *final(index) < SHEET_CELLS,
{
    // The row the picture has to come from, and where the picture on
    // display stands on the sheet.
    let target_row = row_start_index(anim.mode, anim.facing);
    let mut current_col = *index % MAX_FRAMES;
    let current_row = *index / MAX_FRAMES;

    // Facing or mode has changed: start at the first picture of the new row.
    if current_row != target_row {
        *index = atlas_index_for(anim.mode, anim.facing, 0);
        current_col = 0;
        timer.reset();
    }
    let just_started = anim.moving && !anim.was_moving;
    let just_stopped = !anim.moving && anim.was_moving;
    if just_started {
        anim.mode = AnimMode::Walking;
    } else if just_stopped {
        anim.mode = AnimMode::Idle;
    } else {
        anim.tick = anim.tick + 1;
        if anim.tick % TICKS_PER_FRAME > 0 {
            return;
        }
    }

    if anim.tick > TICK_LIMIT {
        anim.tick = 0;
    }
    anim.was_moving = anim.moving;

    if just_started || just_stopped {
        anim.tick = 0;
        // Show the change at once, and give the next picture a full period.
        *index = advance_frame(current_col, anim.mode, anim.facing);
        timer.reset();
    } else {
        if anim.tick > JUMPING_AFTER && matches!(anim.mode, AnimMode::Thrusting) {
            anim.mode = AnimMode::Jumping;
        } else if anim.tick > RESTLESS_AFTER {
            match anim.mode {
                AnimMode::Idle => {
                    anim.mode = AnimMode::Thrusting;
                },
                AnimMode::Walking => {
                    anim.mode = AnimMode::Running;
                },
                _ => {},
            }
        }
        // No change of movement: the timer sets the pace.
        if timer.tick(delta_nanos) {
            *index = advance_frame(current_col, anim.mode, anim.facing);
        }
    }
}

} // verus!
