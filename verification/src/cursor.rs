//! Screen coordinates, board positions and the bounded cursor.
//!
//! Every tile owns a two-by-two block of screen cells. Its glyph sits in the
//! block's upper left cell, at twice the tile's column and row; the odd rows
//! and columns in between are left to the connectors of the selection chain.

use vstd::prelude::*;

verus! {

/// Number of tile columns on the board.
pub const BOARD_WIDTH: u16 = 8;

/// Number of tile rows on the board.
pub const BOARD_HEIGHT: u16 = 6;

/// Distance between two neighbouring tile glyphs, in screen cells.
pub const PLAYING_CURSOR_MOVE: u16 = 2;

/// Topmost screen row of the board.
pub const PLAYING_CURSOR_MAX_UP: u16 = 0;

/// Leftmost screen column of the board.
pub const PLAYING_CURSOR_MAX_LEFT: u16 = 0;

/// Rightmost screen column of the board.
pub const PLAYING_CURSOR_MAX_RIGHT: u16 = 15;

/// Lowest screen row of the board.
pub const PLAYING_CURSOR_MAX_DOWN: u16 = 11;

/// Distance between two neighbouring menu options, in screen cells.
pub const CHOOSING_IMPROVEMENT_CURSOR_MOVE: u16 = 1;

/// Screen row of the first menu option: the rows above it hold the header.
pub const CHOOSING_IMPROVEMENT_CURSOR_MAX_UP: u16 = 1;

/// What the cursor currently walks over.
#[derive(Copy, Clone, Debug, PartialEq, Eq, Structural)]
pub enum GameState {
    /// The cursor walks the board.
    Playing,
    /// The cursor walks a vertical menu with this many options.
    ChoosingImprovement(usize),
}

/// One step of the cursor.
#[derive(Copy, Clone, Debug, PartialEq, Eq, Structural)]
pub enum CursorMove {
    Up,
    Right,
    Down,
    Left,
}

/// Row and column of a tile on the board.
#[derive(Copy, Clone, Debug, PartialEq, Eq, Structural)]
pub struct TilePosition {
    pub y: isize,
    pub x: isize,
}

impl TilePosition {
    /// A position lies on the board when its row and column are in range.
    pub open spec fn on_board(self) -> bool {
        0 <= self.y < BOARD_HEIGHT && 0 <= self.x < BOARD_WIDTH
    }

    pub fn new(y: isize, x: isize) -> (tp: TilePosition)
        ensures
            tp.y == y,
            tp.x == x,
    {
        TilePosition { y, x }
    }

    /// Tells whether the position names a tile of the board.
    pub fn is_on_board(&self) -> (b: bool)
        ensures
            b == self.on_board(),
    {
        0 <= self.y && self.y < BOARD_HEIGHT as isize && 0 <= self.x && self.x < BOARD_WIDTH as isize
    }
}

/// Length of one cursor step in a mode.
pub open spec fn step_of(gs: GameState) -> int {
    match gs {
        GameState::Playing => PLAYING_CURSOR_MOVE as int,
        GameState::ChoosingImprovement(_) => CHOOSING_IMPROVEMENT_CURSOR_MOVE as int,
    }
}

/// Smallest row the cursor may rest on in a mode.
pub open spec fn min_row(gs: GameState) -> int {
    match gs {
        GameState::Playing => PLAYING_CURSOR_MAX_UP as int,
        GameState::ChoosingImprovement(_) => CHOOSING_IMPROVEMENT_CURSOR_MAX_UP as int,
    }
}

/// Largest row the cursor may rest on in a mode. A menu of `n` options ends
/// `n - 1` rows below its first option; no row lies beyond the last one that
/// a screen coordinate can name.
pub open spec fn max_row(gs: GameState) -> int {
    match gs {
        GameState::Playing => PLAYING_CURSOR_MAX_DOWN as int,
        GameState::ChoosingImprovement(n) => {
            let last = CHOOSING_IMPROVEMENT_CURSOR_MAX_UP + n - 1;
            if last <= u16::MAX {
                last
            } else {
                u16::MAX as int
            }
        },
    }
}

/// Whether a mode lets the cursor leave its column.
pub open spec fn walks_columns(gs: GameState) -> bool {
    gs is Playing
}

/// The cursor lies within the bounds of a mode. A menu bounds the row only.
pub open spec fn within_bounds(gs: GameState, cursor: (u16, u16)) -> bool {
    &&& min_row(gs) <= cursor.1 <= max_row(gs)
    &&& gs is Playing ==> PLAYING_CURSOR_MAX_LEFT <= cursor.0 <= PLAYING_CURSOR_MAX_RIGHT
}

/// The cursor rests on the glyph of a tile: inside the board and on even
/// offsets from its origin.
pub open spec fn on_glyph_cell(cursor: (u16, u16)) -> bool {
    &&& within_bounds(GameState::Playing, cursor)
    &&& (cursor.0 - PLAYING_CURSOR_MAX_LEFT) % 2 == 0
    &&& (cursor.1 - PLAYING_CURSOR_MAX_UP) % 2 == 0
}

/// Where a step would take the cursor, were there no bounds.
pub open spec fn stepped(cursor: (u16, u16), m: CursorMove, gs: GameState) -> (int, int) {
    match m {
        CursorMove::Up => (cursor.0 as int, cursor.1 - step_of(gs)),
        CursorMove::Right => (cursor.0 + step_of(gs), cursor.1 as int),
        CursorMove::Down => (cursor.0 as int, cursor.1 + step_of(gs)),
        CursorMove::Left => (cursor.0 - step_of(gs), cursor.1 as int),
    }
}

/// Whether a step is taken: the mode must offer the axis, and the step must
/// not cross the bound that lies in its direction.
pub open spec fn step_taken(cursor: (u16, u16), m: CursorMove, gs: GameState) -> bool {
    match m {
        CursorMove::Up => stepped(cursor, m, gs).1 >= min_row(gs),
        CursorMove::Down => stepped(cursor, m, gs).1 <= max_row(gs),
        CursorMove::Right => walks_columns(gs) && stepped(cursor, m, gs).0
            <= PLAYING_CURSOR_MAX_RIGHT,
        CursorMove::Left => walks_columns(gs) && stepped(cursor, m, gs).0
            >= PLAYING_CURSOR_MAX_LEFT,
    }
}

/// The cursor after one step: the stepped coordinate where the step is taken,
/// the old coordinate where it is not.
pub open spec fn moved(cursor: (u16, u16), m: CursorMove, gs: GameState) -> (u16, u16) {
    if step_taken(cursor, m, gs) {
        (stepped(cursor, m, gs).0 as u16, stepped(cursor, m, gs).1 as u16)
    } else {
        cursor
    }
}

/// The cursor after a sequence of steps, taken first to last.
pub open spec fn moved_all(cursor: (u16, u16), moves: Seq<CursorMove>, gs: GameState) -> (
    u16,
    u16,
)
    decreases moves.len(),
{
    if moves.len() == 0 {
        cursor
    } else {
        moved(moved_all(cursor, moves.drop_last(), gs), moves.last(), gs)
    }
}

/// Moves the cursor by one step of the mode, unless the step would cross the
/// mode's bound; a menu offers no horizontal steps.
pub fn move_cursor(cursor_pos: (u16, u16), m: CursorMove, gs: GameState) -> (next: (u16, u16))
    ensures
        next == moved(cursor_pos, m, gs),
        step_taken(cursor_pos, m, gs) ==> next.0 == stepped(cursor_pos, m, gs).0 && next.1
            == stepped(cursor_pos, m, gs).1,
        within_bounds(gs, cursor_pos) ==> within_bounds(gs, next),
        on_glyph_cell(cursor_pos) && gs is Playing ==> on_glyph_cell(next),
{
    let (x, y) = cursor_pos;
    match gs {
        GameState::Playing => match m {
            CursorMove::Up => {
                if y >= PLAYING_CURSOR_MAX_UP + PLAYING_CURSOR_MOVE {
                    (x, y - PLAYING_CURSOR_MOVE)
                } else {
                    (x, y)
                }
            },
            CursorMove::Right => {
                if x <= PLAYING_CURSOR_MAX_RIGHT - PLAYING_CURSOR_MOVE {
                    (x + PLAYING_CURSOR_MOVE, y)
                } else {
                    (x, y)
                }
            },
            CursorMove::Down => {
                if y <= PLAYING_CURSOR_MAX_DOWN - PLAYING_CURSOR_MOVE {
                    (x, y + PLAYING_CURSOR_MOVE)
                } else {
                    (x, y)
                }
            },
            CursorMove::Left => {
                if x >= PLAYING_CURSOR_MAX_LEFT + PLAYING_CURSOR_MOVE {
                    (x - PLAYING_CURSOR_MOVE, y)
                } else {
                    (x, y)
                }
            },
        },
        GameState::ChoosingImprovement(num_choices) => match m {
            CursorMove::Up => {
                if y >= CHOOSING_IMPROVEMENT_CURSOR_MAX_UP + CHOOSING_IMPROVEMENT_CURSOR_MOVE {
                    (x, y - CHOOSING_IMPROVEMENT_CURSOR_MOVE)
                } else {
                    (x, y)
                }
            },
            CursorMove::Down => {
                if y < u16::MAX && (y as usize) < num_choices {
                    (x, y + CHOOSING_IMPROVEMENT_CURSOR_MOVE)
                } else {
                    (x, y)
                }
            },
            CursorMove::Right => (x, y),
            CursorMove::Left => (x, y),
        },
    }
}

/// The tile whose glyph the cursor rests on: half the cursor's offset from
/// the board's origin, row and column.
pub fn tile_position_from_cursor_position(cursor_position: (u16, u16)) -> (tp: TilePosition)
    ensures
        tp.y == (cursor_position.1 - PLAYING_CURSOR_MAX_UP) / 2,
        tp.x == (cursor_position.0 - PLAYING_CURSOR_MAX_LEFT) / 2,
        within_bounds(GameState::Playing, cursor_position) ==> tp.on_board(),
        on_glyph_cell(cursor_position) ==> glyph_cell(tp) == (
            cursor_position.0 as int,
            cursor_position.1 as int,
        ),
{
    let (x, y) = cursor_position;
    TilePosition::new(
        ((y - PLAYING_CURSOR_MAX_UP) / 2) as isize,
        ((x - PLAYING_CURSOR_MAX_LEFT) / 2) as isize,
    )
}

/// The menu option the cursor rests on: its row, less the header above the
/// first option.
pub fn improvement_choice_index_from_cursor_position(cursor_position: (u16, u16)) -> (index:
    usize)
    requires
        cursor_position.1 >= CHOOSING_IMPROVEMENT_CURSOR_MAX_UP,
    ensures
        index == cursor_position.1 - PLAYING_CURSOR_MAX_UP - CHOOSING_IMPROVEMENT_CURSOR_MAX_UP,
{
    let (_x, y) = cursor_position;
    (y - PLAYING_CURSOR_MAX_UP - CHOOSING_IMPROVEMENT_CURSOR_MAX_UP) as usize
}

/// Screen cell of a tile's glyph, column first.
pub open spec fn glyph_cell(tp: TilePosition) -> (int, int) {
    (PLAYING_CURSOR_MAX_LEFT + 2 * tp.x, PLAYING_CURSOR_MAX_UP + 2 * tp.y)
}

/// Computes the screen cell of a tile's glyph, column first.
pub fn cursor_position_from_tile_position(tp: TilePosition) -> (cell: (u16, u16))
    requires
        tp.on_board(),
    ensures
        (cell.0 as int, cell.1 as int) == glyph_cell(tp),
        on_glyph_cell(cell),
{
    (PLAYING_CURSOR_MAX_LEFT + 2 * (tp.x as u16), PLAYING_CURSOR_MAX_UP + 2 * (tp.y as u16))
}

/// Every tile of the board is reached from a screen cell: the cell of its
/// glyph is a glyph cell within the board's bounds, and the tile read back
/// from that cell is the tile itself.
pub proof fn lemma_glyph_cell_round_trip(tp: TilePosition)
    requires
        tp.on_board(),
    ensures
        exists|cursor: (u16, u16)|
            on_glyph_cell(cursor) && #[trigger] tile_at_cursor(cursor) == tp,
        on_glyph_cell((glyph_cell(tp).0 as u16, glyph_cell(tp).1 as u16)),
        tile_at_cursor((glyph_cell(tp).0 as u16, glyph_cell(tp).1 as u16)) == tp,
{
    let cursor = (glyph_cell(tp).0 as u16, glyph_cell(tp).1 as u16);
    assert(tile_at_cursor(cursor) == tp);
}

/// The tile under a cursor, as `tile_position_from_cursor_position` computes it.
pub open spec fn tile_at_cursor(cursor: (u16, u16)) -> TilePosition {
    TilePosition {
        y: ((cursor.1 - PLAYING_CURSOR_MAX_UP) / 2) as isize,
        x: ((cursor.0 - PLAYING_CURSOR_MAX_LEFT) / 2) as isize,
    }
}

/// No sequence of steps takes a cursor out of the bounds of its mode.
pub proof fn lemma_moves_stay_within_bounds(
    cursor: (u16, u16),
    moves: Seq<CursorMove>,
    gs: GameState,
)
    requires
        within_bounds(gs, cursor),
    ensures
        within_bounds(gs, moved_all(cursor, moves, gs)),
    decreases moves.len(),
{
    if moves.len() > 0 {
        lemma_moves_stay_within_bounds(cursor, moves.drop_last(), gs);
    }
}

/// On the board, no sequence of steps takes a cursor off the glyph cells.
pub proof fn lemma_moves_stay_on_glyph_cells(cursor: (u16, u16), moves: Seq<CursorMove>)
    requires
        on_glyph_cell(cursor),
    ensures
        on_glyph_cell(moved_all(cursor, moves, GameState::Playing)),
    decreases moves.len(),
{
    if moves.len() > 0 {
        lemma_moves_stay_on_glyph_cells(cursor, moves.drop_last());
    }
}

} // verus!
