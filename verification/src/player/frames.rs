//! The layout of the sprite sheet: which row belongs to which mode and
//! facing, and how many cells of a row hold a picture.

use vstd::prelude::*;

verus! {

/// Edge of one square cell of the sheet, in pixels.
pub const TILE_SIZE: u32 = 64;

/// Columns of the sheet. Rows of modes with fewer pictures end in blank cells.
pub const MAX_FRAMES: usize = 9;

/// Rows of the sheet: four for each of the five modes.
pub const SHEET_ROWS: usize = 20;

/// Cells of the sheet.
pub const SHEET_CELLS: usize = 180;

/// The direction the character looks in.
#[derive(Clone, Copy, Debug, PartialEq, Eq, Structural)]
pub enum Facing {
    Up,
    Left,
    Down,
    Right,
}

/// The animation that is playing.
#[derive(Clone, Copy, Debug, PartialEq, Eq, Structural)]
pub enum AnimMode {
    Idle,
    Jumping,
    Running,
    Thrusting,
    Walking,
}

impl Facing {
    /// The row of a facing inside the four rows of a mode.
    pub open spec fn slot(self) -> nat {
        match self {
            Facing::Up => 0,
            Facing::Left => 1,
            Facing::Down => 2,
            Facing::Right => 3,
        }
    }
}

impl AnimMode {
    /// The position of a mode's block on the sheet, counted in blocks.
    pub open spec fn ordinal(self) -> nat {
        match self {
            AnimMode::Idle => 0,
            AnimMode::Jumping => 1,
            AnimMode::Running => 2,
            AnimMode::Thrusting => 3,
            AnimMode::Walking => 4,
        }
    }

    /// The first row of a mode's block.
    pub open spec fn offset(self) -> nat {
        4 * self.ordinal()
    }

    /// The number of cells in each row of a mode that hold a picture.
    pub open spec fn width(self) -> nat {
        match self {
            AnimMode::Idle => 2,
            AnimMode::Jumping => 5,
            AnimMode::Running => 8,
            AnimMode::Thrusting => 8,
            AnimMode::Walking => 9,
        }
    }
}

/// The row of the sheet that shows `mode` while looking towards `facing`.
pub open spec fn row(mode: AnimMode, facing: Facing) -> nat {
    mode.offset() + facing.slot()
}

/// The cell that shows picture `frame` of `mode` and `facing`. A `frame`
/// past the last picture of the row stands for the last picture.
pub open spec fn atlas_index(mode: AnimMode, facing: Facing, frame: nat) -> nat {
    let last = (mode.width() - 1) as nat;
    9 * row(mode, facing) + if frame < last { frame } else { last }
}

/// Whether `index` is a cell of the row of `mode` and `facing` that holds a
/// picture.
pub open spec fn shows(index: nat, mode: AnimMode, facing: Facing) -> bool {
    index / 9 == row(mode, facing) && index % 9 < mode.width()
}

/// Every cell that `atlas_index` names lies on the sheet, in the row of its
/// mode and facing, and holds a picture.
pub proof fn lemma_atlas_index_on_sheet(mode: AnimMode, facing: Facing, frame: nat)
    ensures
        atlas_index(mode, facing, frame) <= 179,
        atlas_index(mode, facing, frame) - 9 * row(mode, facing) <= mode.width() - 1,
        atlas_index(mode, facing, frame) >= 9 * row(mode, facing),
        shows(atlas_index(mode, facing, frame), mode, facing),
        frame < mode.width() ==> atlas_index(mode, facing, frame) == 9 * row(mode, facing) + frame,
{
}

/// Row offset of a mode's block: 0, 4, 8, 12 or 16.
pub fn block_offset(mode: AnimMode) -> (offset: usize)
    ensures
        offset == mode.offset(),
{
    let num_blocks: usize = match mode {
        AnimMode::Idle => 0,
        AnimMode::Jumping => 1,
        AnimMode::Running => 2,
        AnimMode::Thrusting => 3,
        AnimMode::Walking => 4,
    };
    4 * num_blocks
}

/// How many frames a row of `mode` runs through before it wraps.
pub fn block_width(mode: AnimMode) -> (width: usize)
    ensures
        width == mode.width(),
{
    match mode {
        AnimMode::Idle => 2,
        AnimMode::Jumping => 5,
        AnimMode::Running => 8,
        AnimMode::Thrusting => 8,
        AnimMode::Walking => 9,
    }
}

/// Row of `facing` inside a block.
pub fn row_in_block(facing: Facing) -> (slot: usize)
    ensures
        slot == facing.slot(),
{
    match facing {
        Facing::Up => 0,
        Facing::Left => 1,
        Facing::Down => 2,
        Facing::Right => 3,
    }
}

/// The row of the sheet for `mode` and `facing`: a row number, not a cell.
pub fn row_start_index(mode: AnimMode, facing: Facing) -> (r: usize)
    ensures
        r == row(mode, facing),
        r < SHEET_ROWS,
{
    block_offset(mode) + row_in_block(facing)
}

/// The cell of the sheet for picture `frame_in_row` of `mode` and `facing`.
pub fn atlas_index_for(mode: AnimMode, facing: Facing, frame_in_row: usize) -> (index: usize)
    ensures
        index == atlas_index(mode, facing, frame_in_row as nat),
        index < SHEET_CELLS,
        shows(index as nat, mode, facing),
{
    let last: usize = block_width(mode) - 1;
    let frame: usize = if frame_in_row < last { frame_in_row } else { last };
    proof {
        lemma_atlas_index_on_sheet(mode, facing, frame_in_row as nat);
    }
    MAX_FRAMES * row_start_index(mode, facing) + frame
}

} // verus!
