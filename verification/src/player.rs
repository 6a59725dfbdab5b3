//! The player's animation state and the two per-tick updates that drive it:
//! [`move_player`] first, [`animate_player`] second.

pub mod animation;
pub mod frames;
pub mod laws;
pub mod movement;
pub mod state;
pub mod timer;

pub use animation::{animate_player, JUMPING_AFTER, RESTLESS_AFTER, TICKS_PER_FRAME, TICK_LIMIT};
pub use frames::{
    atlas_index_for, block_offset, block_width, row_in_block, row_start_index, AnimMode, Facing,
    MAX_FRAMES, SHEET_CELLS, SHEET_ROWS, TILE_SIZE,
};
pub use movement::{move_player, MOVE_SPEED};
pub use state::{spawn_player, AnimationState, PlayerAnimation};
pub use timer::{AnimationTimer, ANIM_PERIOD_NANOS};
