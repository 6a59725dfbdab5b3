use player_animation::player::{
    atlas_index_for, block_offset, block_width, row_in_block, row_start_index, AnimMode, Facing,
    MAX_FRAMES, SHEET_CELLS, SHEET_ROWS, TILE_SIZE,
};

const MODES: [AnimMode; 5] = [
    AnimMode::Idle,
    AnimMode::Jumping,
    AnimMode::Running,
    AnimMode::Thrusting,
    AnimMode::Walking,
];

const FACINGS: [Facing; 4] = [Facing::Up, Facing::Left, Facing::Down, Facing::Right];

#[test]
fn sheet_is_nine_by_twenty_cells_of_64_pixels() {
    assert_eq!(TILE_SIZE, 64);
    assert_eq!(MAX_FRAMES, 9);
    assert_eq!(SHEET_ROWS, 20);
    assert_eq!(SHEET_CELLS, MAX_FRAMES * SHEET_ROWS);
}

#[test]
fn block_offset_is_four_rows_per_mode() {
    assert_eq!(block_offset(AnimMode::Idle), 0);
    assert_eq!(block_offset(AnimMode::Jumping), 4);
    assert_eq!(block_offset(AnimMode::Running), 8);
    assert_eq!(block_offset(AnimMode::Thrusting), 12);
    assert_eq!(block_offset(AnimMode::Walking), 16);
}

#[test]
fn block_width_counts_the_pictures_of_a_row() {
    assert_eq!(block_width(AnimMode::Idle), 2);
    assert_eq!(block_width(AnimMode::Jumping), 5);
    assert_eq!(block_width(AnimMode::Running), 8);
    assert_eq!(block_width(AnimMode::Thrusting), 8);
    assert_eq!(block_width(AnimMode::Walking), 9);
}

#[test]
fn row_in_block_orders_up_left_down_right() {
    assert_eq!(row_in_block(Facing::Up), 0);
    assert_eq!(row_in_block(Facing::Left), 1);
    assert_eq!(row_in_block(Facing::Down), 2);
    assert_eq!(row_in_block(Facing::Right), 3);
}

#[test]
fn row_start_index_adds_block_and_facing() {
    assert_eq!(row_start_index(AnimMode::Idle, Facing::Up), 0);
    assert_eq!(row_start_index(AnimMode::Idle, Facing::Down), 2);
    assert_eq!(row_start_index(AnimMode::Jumping, Facing::Left), 5);
    assert_eq!(row_start_index(AnimMode::Running, Facing::Down), 10);
    assert_eq!(row_start_index(AnimMode::Thrusting, Facing::Right), 15);
    assert_eq!(row_start_index(AnimMode::Walking, Facing::Up), 16);
    assert_eq!(row_start_index(AnimMode::Walking, Facing::Right), 19);
}

#[test]
fn atlas_index_for_known_cells() {
    assert_eq!(atlas_index_for(AnimMode::Idle, Facing::Up, 0), 0);
    assert_eq!(atlas_index_for(AnimMode::Idle, Facing::Down, 0), 18);
    assert_eq!(atlas_index_for(AnimMode::Idle, Facing::Down, 1), 19);
    assert_eq!(atlas_index_for(AnimMode::Thrusting, Facing::Right, 3), 138);
    assert_eq!(atlas_index_for(AnimMode::Walking, Facing::Left, 4), 157);
    assert_eq!(atlas_index_for(AnimMode::Walking, Facing::Right, 8), 179);
}

#[test]
fn atlas_index_for_clamps_to_the_last_picture() {
    assert_eq!(atlas_index_for(AnimMode::Idle, Facing::Up, 5), 1);
    assert_eq!(atlas_index_for(AnimMode::Idle, Facing::Down, 2), 19);
    assert_eq!(atlas_index_for(AnimMode::Jumping, Facing::Left, 7), 49);
    assert_eq!(atlas_index_for(AnimMode::Running, Facing::Down, 100), 97);
    assert_eq!(atlas_index_for(AnimMode::Thrusting, Facing::Up, 8), 115);
    assert_eq!(atlas_index_for(AnimMode::Walking, Facing::Right, 9), 179);
    assert_eq!(atlas_index_for(AnimMode::Walking, Facing::Right, usize::MAX), 179);
}

#[test]
fn atlas_index_for_stays_on_the_sheet_and_off_blank_cells() {
    let frames: [usize; 13] = [0, 1, 2, 3, 4, 5, 6, 7, 8, 9, 10, 1000, usize::MAX];
    for mode in MODES {
        for facing in FACINGS {
            for frame in frames {
                let index = atlas_index_for(mode, facing, frame);
                let row_start = row_start_index(mode, facing) * 9;
                assert!(index <= 179);
                assert!(index >= row_start);
                assert!(index - row_start <= block_width(mode) - 1);
                assert_eq!(index / 9, row_start_index(mode, facing));
                if frame < block_width(mode) {
                    assert_eq!(index - row_start, frame);
                }
            }
        }
    }
}

#[test]
fn every_mode_and_facing_has_a_row_of_its_own() {
    let mut seen = [false; 20];
    for mode in MODES {
        for facing in FACINGS {
            let row = row_start_index(mode, facing);
            assert!(row < 20);
            assert!(!seen[row]);
            seen[row] = true;
        }
    }
    assert!(seen.iter().all(|s| *s));
}
