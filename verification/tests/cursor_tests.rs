use dungeon_raid_tui::cursor::{
    cursor_position_from_tile_position, improvement_choice_index_from_cursor_position,
    move_cursor, tile_position_from_cursor_position, CursorMove, GameState, TilePosition,
    BOARD_HEIGHT, BOARD_WIDTH, PLAYING_CURSOR_MAX_DOWN, PLAYING_CURSOR_MAX_RIGHT,
};

#[test]
fn board_is_eight_by_six() {
    assert_eq!(BOARD_WIDTH, 8);
    assert_eq!(BOARD_HEIGHT, 6);
    assert_eq!(PLAYING_CURSOR_MAX_RIGHT, 2 * BOARD_WIDTH - 1);
    assert_eq!(PLAYING_CURSOR_MAX_DOWN, 2 * BOARD_HEIGHT - 1);
}

#[test]
fn tile_under_glyph_cell() {
    let tp = tile_position_from_cursor_position((4, 6));
    assert_eq!(tp.y, 3);
    assert_eq!(tp.x, 2);
}

#[test]
fn tile_under_origin_and_last_glyph_cell() {
    assert_eq!(tile_position_from_cursor_position((0, 0)), TilePosition::new(0, 0));
    assert_eq!(tile_position_from_cursor_position((14, 10)), TilePosition::new(5, 7));
}

#[test]
fn every_glyph_cell_maps_onto_the_board() {
    let mut x: u16 = 0;
    while x <= 14 {
        let mut y: u16 = 0;
        while y <= 10 {
            let tp = tile_position_from_cursor_position((x, y));
            assert!(tp.is_on_board());
            assert_eq!(tp.x, (x / 2) as isize);
            assert_eq!(tp.y, (y / 2) as isize);
            y += 2;
        }
        x += 2;
    }
}

#[test]
fn glyph_cell_round_trip() {
    for row in 0..6isize {
        for col in 0..8isize {
            let tp = TilePosition::new(row, col);
            let cell = cursor_position_from_tile_position(tp);
            assert_eq!(cell, ((2 * col) as u16, (2 * row) as u16));
            assert_eq!(tile_position_from_cursor_position(cell), tp);
        }
    }
}

#[test]
fn positions_off_the_board() {
    assert!(!TilePosition::new(-1, 0).is_on_board());
    assert!(!TilePosition::new(0, -1).is_on_board());
    assert!(!TilePosition::new(6, 0).is_on_board());
    assert!(!TilePosition::new(0, 8).is_on_board());
    assert!(TilePosition::new(5, 7).is_on_board());
}

#[test]
fn menu_index_skips_the_header() {
    assert_eq!(improvement_choice_index_from_cursor_position((0, 1)), 0);
    assert_eq!(improvement_choice_index_from_cursor_position((0, 3)), 2);
    assert_eq!(improvement_choice_index_from_cursor_position((7, 65535)), 65534);
}

#[test]
fn right_at_the_right_bound_is_discarded() {
    assert_eq!(move_cursor((14, 0), CursorMove::Right, GameState::Playing), (14, 0));
}

#[test]
fn playing_steps_are_two_cells() {
    assert_eq!(move_cursor((0, 0), CursorMove::Right, GameState::Playing), (2, 0));
    assert_eq!(move_cursor((0, 0), CursorMove::Down, GameState::Playing), (0, 2));
    assert_eq!(move_cursor((4, 6), CursorMove::Left, GameState::Playing), (2, 6));
    assert_eq!(move_cursor((4, 6), CursorMove::Up, GameState::Playing), (4, 4));
    assert_eq!(move_cursor((12, 8), CursorMove::Right, GameState::Playing), (14, 8));
    assert_eq!(move_cursor((12, 8), CursorMove::Down, GameState::Playing), (12, 10));
}

#[test]
fn playing_steps_past_a_bound_are_discarded() {
    assert_eq!(move_cursor((0, 0), CursorMove::Left, GameState::Playing), (0, 0));
    assert_eq!(move_cursor((0, 0), CursorMove::Up, GameState::Playing), (0, 0));
    assert_eq!(move_cursor((14, 10), CursorMove::Down, GameState::Playing), (14, 10));
    assert_eq!(move_cursor((14, 10), CursorMove::Right, GameState::Playing), (14, 10));
}

#[test]
fn playing_steps_check_the_bound_ahead_only() {
    assert_eq!(move_cursor((100, 100), CursorMove::Up, GameState::Playing), (100, 98));
    assert_eq!(move_cursor((100, 100), CursorMove::Left, GameState::Playing), (98, 100));
    assert_eq!(move_cursor((100, 100), CursorMove::Down, GameState::Playing), (100, 100));
    assert_eq!(move_cursor((1, 1), CursorMove::Right, GameState::Playing), (3, 1));
}

#[test]
fn menu_steps_are_one_row() {
    let gs = GameState::ChoosingImprovement(3);
    assert_eq!(move_cursor((0, 1), CursorMove::Down, gs), (0, 2));
    assert_eq!(move_cursor((0, 2), CursorMove::Down, gs), (0, 3));
    assert_eq!(move_cursor((0, 3), CursorMove::Down, gs), (0, 3));
    assert_eq!(move_cursor((0, 3), CursorMove::Up, gs), (0, 2));
    assert_eq!(move_cursor((0, 1), CursorMove::Up, gs), (0, 1));
}

#[test]
fn menu_offers_no_horizontal_steps() {
    let gs = GameState::ChoosingImprovement(3);
    assert_eq!(move_cursor((0, 2), CursorMove::Left, gs), (0, 2));
    assert_eq!(move_cursor((0, 2), CursorMove::Right, gs), (0, 2));
    assert_eq!(move_cursor((5, 2), CursorMove::Left, gs), (5, 2));
}

#[test]
fn empty_menu_lets_the_cursor_rest() {
    let gs = GameState::ChoosingImprovement(0);
    assert_eq!(move_cursor((0, 1), CursorMove::Down, gs), (0, 1));
    assert_eq!(move_cursor((0, 1), CursorMove::Up, gs), (0, 1));
    assert_eq!(move_cursor((0, 0), CursorMove::Down, gs), (0, 0));
}

#[test]
fn menu_ends_with_the_screen_rows() {
    let gs = GameState::ChoosingImprovement(usize::MAX);
    assert_eq!(move_cursor((0, 65534), CursorMove::Down, gs), (0, 65535));
    assert_eq!(move_cursor((0, 65535), CursorMove::Down, gs), (0, 65535));
}

#[test]
fn moves_never_leave_the_board() {
    let moves = [
        CursorMove::Right,
        CursorMove::Right,
        CursorMove::Down,
        CursorMove::Left,
        CursorMove::Up,
        CursorMove::Up,
        CursorMove::Right,
        CursorMove::Down,
        CursorMove::Down,
        CursorMove::Right,
    ];
    let mut cursor = (0u16, 0u16);
    for round in 0..40 {
        for (turn, m) in moves.iter().enumerate() {
            let m = if (round + turn) % 7 == 0 { CursorMove::Down } else { *m };
            cursor = move_cursor(cursor, m, GameState::Playing);
            assert!(cursor.0 <= 14 && cursor.1 <= 10);
            assert!(cursor.0 % 2 == 0 && cursor.1 % 2 == 0);
            assert!(tile_position_from_cursor_position(cursor).is_on_board());
        }
    }
}

#[test]
fn moves_never_leave_the_menu() {
    let gs = GameState::ChoosingImprovement(4);
    let mut cursor = (0u16, 1u16);
    for turn in 0..50 {
        let m = if turn % 3 == 0 { CursorMove::Up } else { CursorMove::Down };
        cursor = move_cursor(cursor, m, gs);
        assert!(1 <= cursor.1 && cursor.1 <= 4);
        assert_eq!(cursor.0, 0);
    }
    assert_eq!(cursor, (0, 4));
}
