//! What the drawing of the board leaves in each cell of the screen.
//!
//! The cells of a buffer lie in one sequence, and a tile is drawn by updates
//! of that sequence. Seen from one screen coordinate, the same drawing is a
//! history of writes to one cell. This module relates the two and states what
//! the history comes to: for the cell of a tile's glyph, for a cell that no
//! tile writes to, for a cell with one connector and for a cell in which two
//! connectors cross.

use crate::chain::{
    connector_cell, is_diagonal_glyph, lemma_connector_off_glyph_cells, link_on_board,
};
use crate::cursor::{glyph_cell, TilePosition, BOARD_WIDTH};
use crate::game::{Board, Tile};
use crate::screen::{cell_index, first_char, holds_in, lemma_cells_apart, Area, CellView};
use crate::widget::{
    connected, holds_board, painted, scan_position, tile_count, tile_drawn, tiles_drawn,
};
use vstd::prelude::*;

verus! {

/// The turn at which a tile is drawn.
pub open spec fn turn_of(tp: TilePosition) -> int {
    tp.y * BOARD_WIDTH + tp.x
}

/// The connector of the tile at a position lies in the cell at a coordinate.
pub open spec fn targets(board: Board, tp: TilePosition, x: int, y: int) -> bool {
    &&& board.direction(tp.y as int, tp.x as int).links()
    &&& connector_cell(tp, board.direction(tp.y as int, tp.x as int)) == (x, y)
}

/// What the drawing of one tile makes of the cell at a coordinate: the
/// painted glyph if the cell is the tile's own, then the connector if the
/// tile's connector lies in the cell.
pub open spec fn cell_after_tile(
    cell: CellView,
    tile: Tile,
    tp: TilePosition,
    is_start: bool,
    x: int,
    y: int,
) -> CellView {
    let with_glyph = if glyph_cell(tp) == (x, y) {
        painted(cell, tile.tile_type, is_start)
    } else {
        cell
    };
    if tile.next_selection.links() && connector_cell(tp, tile.next_selection) == (x, y) {
        connected(with_glyph, tile.next_selection.glyph())
    } else {
        with_glyph
    }
}

/// What the first `n` turns of the scan make of the cell at a coordinate.
pub open spec fn cell_after_tiles(
    cell: CellView,
    board: Board,
    start: Option<TilePosition>,
    x: int,
    y: int,
    n: nat,
) -> CellView
    decreases n,
{
    if n == 0 {
        cell
    } else {
        let tp = scan_position(n - 1);
        cell_after_tile(
            cell_after_tiles(cell, board, start, x, y, (n - 1) as nat),
            board.tile(tp.y as int, tp.x as int),
            tp,
            start == Some(tp),
            x,
            y,
        )
    }
}

/// The scan visits every tile of the board once: the tile of a turn lies on
/// the board, and its turn is that turn.
pub proof fn lemma_scan_visits_board(turn: int)
    requires
        0 <= turn < tile_count(),
    ensures
        scan_position(turn).on_board(),
        turn_of(scan_position(turn)) == turn,
{
}

/// A tile of the board is drawn at its turn.
pub proof fn lemma_turn_of_tile(tp: TilePosition)
    requires
        tp.on_board(),
    ensures
        0 <= turn_of(tp) < tile_count(),
        scan_position(turn_of(tp)) == tp,
{
}

/// The drawing of one tile, seen from a coordinate whose cell the buffer
/// holds, is what `cell_after_tile` makes of that cell.
pub proof fn lemma_tile_drawn_at(
    cells: Seq<CellView>,
    area: Area,
    tile: Tile,
    tp: TilePosition,
    is_start: bool,
    x: int,
    y: int,
)
    requires
        tp.on_board(),
        link_on_board(tp, tile.next_selection),
        holds_board(area, cells.len()),
        holds_in(area, cells.len(), x, y),
    ensures
        tile_drawn(cells, area, tile, tp, is_start).len() == cells.len(),
        tile_drawn(cells, area, tile, tp, is_start)[cell_index(area, x, y)] == cell_after_tile(
            cells[cell_index(area, x, y)],
            tile,
            tp,
            is_start,
            x,
            y,
        ),
{
    let glyph = glyph_cell(tp);
    assert(holds_in(area, cells.len(), glyph.0, glyph.1));
    if glyph != (x, y) {
        if cell_index(area, glyph.0, glyph.1) == cell_index(area, x, y) {
            lemma_cells_apart(area, glyph.0, glyph.1, x, y);
        }
    }
    if tile.next_selection.links() {
        let to = connector_cell(tp, tile.next_selection);
        assert(holds_in(area, cells.len(), to.0, to.1));
        if to != (x, y) {
            if cell_index(area, to.0, to.1) == cell_index(area, x, y) {
                lemma_cells_apart(area, to.0, to.1, x, y);
            }
        }
    }
}

/// The drawing of the first `n` tiles, seen from a coordinate whose cell the
/// buffer holds, is what `cell_after_tiles` makes of that cell.
pub proof fn lemma_tiles_drawn_at(
    cells: Seq<CellView>,
    area: Area,
    board: Board,
    start: Option<TilePosition>,
    x: int,
    y: int,
    n: nat,
)
    requires
        board.wf(),
        n <= tile_count(),
        holds_board(area, cells.len()),
        holds_in(area, cells.len(), x, y),
    ensures
        tiles_drawn(cells, area, board, start, n).len() == cells.len(),
        tiles_drawn(cells, area, board, start, n)[cell_index(area, x, y)] == cell_after_tiles(
            cells[cell_index(area, x, y)],
            board,
            start,
            x,
            y,
            n,
        ),
    decreases n,
{
    if n > 0 {
        lemma_tiles_drawn_at(cells, area, board, start, x, y, (n - 1) as nat);
        let tp = scan_position(n - 1);
        lemma_scan_visits_board(n - 1);
        assert(link_on_board(tp, board.direction(tp.y as int, tp.x as int)));
        lemma_tile_drawn_at(
            tiles_drawn(cells, area, board, start, (n - 1) as nat),
            area,
            board.tile(tp.y as int, tp.x as int),
            tp,
            start == Some(tp),
            x,
            y,
        );
    }
}

/// The turns from one to another in which no tile writes to a cell leave the
/// cell as it was.
pub proof fn lemma_quiet_turns(
    cell: CellView,
    board: Board,
    start: Option<TilePosition>,
    x: int,
    y: int,
    from: nat,
    to: nat,
)
    requires
        from <= to <= tile_count(),
        forall|turn: int|
            from <= turn < to ==> glyph_cell(#[trigger] scan_position(turn)) != (x, y)
                && !targets(board, scan_position(turn), x, y),
    ensures
        cell_after_tiles(cell, board, start, x, y, to) == cell_after_tiles(
            cell,
            board,
            start,
            x,
            y,
            from,
        ),
    decreases to - from,
{
    if from < to {
        lemma_quiet_turns(cell, board, start, x, y, from, (to - 1) as nat);
    }
}

/// Every tile's glyph is on the screen once the board is drawn: the cell of
/// a tile's glyph shows the glyph of the tile's kind in the colours of its
/// kind, and blinks if the selection chain starts at the tile or if the cell
/// blinked before.
pub proof fn lemma_glyph_cells_show_tiles(
    cells: Seq<CellView>,
    area: Area,
    board: Board,
    start: Option<TilePosition>,
    tp: TilePosition,
)
    requires
        board.wf(),
        holds_board(area, cells.len()),
        tp.on_board(),
    ensures
        tiles_drawn(cells, area, board, start, tile_count())[cell_index(
            area,
            glyph_cell(tp).0,
            glyph_cell(tp).1,
        )] == painted(
            cells[cell_index(area, glyph_cell(tp).0, glyph_cell(tp).1)],
            board.tile(tp.y as int, tp.x as int).tile_type,
            start == Some(tp),
        ),
{
    let x = glyph_cell(tp).0;
    let y = glyph_cell(tp).1;
    let cell = cells[cell_index(area, x, y)];
    let turn = turn_of(tp);
    lemma_turn_of_tile(tp);
    lemma_tiles_drawn_at(cells, area, board, start, x, y, tile_count());
    assert forall|k: int| 0 <= k < tile_count() && k != turn implies glyph_cell(
        #[trigger] scan_position(k),
    ) != (x, y) && !targets(board, scan_position(k), x, y) by {
        lemma_scan_visits_board(k);
        let other = scan_position(k);
        if board.direction(other.y as int, other.x as int).links() {
            lemma_connector_off_glyph_cells(other, board.direction(other.y as int, other.x as int));
        }
    }
    lemma_quiet_turns(cell, board, start, x, y, 0, turn as nat);
    lemma_quiet_turns(cell, board, start, x, y, (turn + 1) as nat, tile_count());
    let direction = board.direction(tp.y as int, tp.x as int);
    if direction.links() {
        lemma_connector_off_glyph_cells(tp, direction);
    }
}

/// A cell that is no tile's glyph cell and in which no tile's connector lies
/// is left as it was. So a tile whose direction leads nowhere writes no
/// connector.
pub proof fn lemma_untargeted_cell_kept(
    cells: Seq<CellView>,
    area: Area,
    board: Board,
    start: Option<TilePosition>,
    x: int,
    y: int,
)
    requires
        board.wf(),
        holds_board(area, cells.len()),
        holds_in(area, cells.len(), x, y),
        forall|tp: TilePosition|
            tp.on_board() ==> #[trigger] glyph_cell(tp) != (x, y) && !targets(board, tp, x, y),
    ensures
        tiles_drawn(cells, area, board, start, tile_count())[cell_index(area, x, y)]
            == cells[cell_index(area, x, y)],
{
    lemma_tiles_drawn_at(cells, area, board, start, x, y, tile_count());
    assert forall|k: int| 0 <= k < tile_count() implies glyph_cell(#[trigger] scan_position(k))
        != (x, y) && !targets(board, scan_position(k), x, y) by {
        lemma_scan_visits_board(k);
    }
    lemma_quiet_turns(cells[cell_index(area, x, y)], board, start, x, y, 0, tile_count());
}

/// A connector that is alone in its cell shows the glyph of its direction: a
/// bar for a vertical one, a dash for a horizontal one, a backslash for the
/// diagonal that falls to the right, a slash for the one that rises. Only
/// where the cell showed a diagonal connector before the board was drawn
/// does it show a cross. Colours and blinking of the cell stay.
pub proof fn lemma_single_connector(
    cells: Seq<CellView>,
    area: Area,
    board: Board,
    start: Option<TilePosition>,
    tp: TilePosition,
    x: int,
    y: int,
)
    requires
        board.wf(),
        holds_board(area, cells.len()),
        tp.on_board(),
        targets(board, tp, x, y),
        forall|other: TilePosition|
            other.on_board() && other != tp ==> !#[trigger] targets(board, other, x, y),
    ensures
        tiles_drawn(cells, area, board, start, tile_count())[cell_index(area, x, y)] == connected(
            cells[cell_index(area, x, y)],
            board.direction(tp.y as int, tp.x as int).glyph(),
        ),
        !(first_char(cells[cell_index(area, x, y)].symbol) matches Some(c) && is_diagonal_glyph(c))
            ==> {
            let direction = board.direction(tp.y as int, tp.x as int);
            let symbol = tiles_drawn(cells, area, board, start, tile_count())[cell_index(
                area,
                x,
                y,
            )].symbol;
            &&& symbol == seq![direction.glyph()]
            &&& direction.is_vertical() ==> symbol == seq!['|']
            &&& direction.is_horizontal() ==> symbol == seq!['-']
            &&& direction.is_falling_diagonal() ==> symbol == seq!['\\']
            &&& direction.is_rising_diagonal() ==> symbol == seq!['/']
        },
{
    let cell = cells[cell_index(area, x, y)];
    let turn = turn_of(tp);
    let direction = board.direction(tp.y as int, tp.x as int);
    lemma_turn_of_tile(tp);
    lemma_tiles_drawn_at(cells, area, board, start, x, y, tile_count());
    lemma_connector_off_glyph_cells(tp, direction);
    assert forall|k: int| 0 <= k < tile_count() && k != turn implies glyph_cell(
        #[trigger] scan_position(k),
    ) != (x, y) && !targets(board, scan_position(k), x, y) by {
        lemma_scan_visits_board(k);
    }
    lemma_quiet_turns(cell, board, start, x, y, 0, turn as nat);
    lemma_quiet_turns(cell, board, start, x, y, (turn + 1) as nat, tile_count());
}

proof fn lemma_crossing_in_order(
    cells: Seq<CellView>,
    area: Area,
    board: Board,
    start: Option<TilePosition>,
    first: TilePosition,
    second: TilePosition,
    x: int,
    y: int,
)
    requires
        board.wf(),
        holds_board(area, cells.len()),
        first.on_board(),
        second.on_board(),
        turn_of(first) < turn_of(second),
        targets(board, first, x, y),
        targets(board, second, x, y),
        board.direction(first.y as int, first.x as int).is_diagonal() || board.direction(
            second.y as int,
            second.x as int,
        ).is_diagonal(),
        forall|other: TilePosition|
            other.on_board() && other != first && other != second ==> !#[trigger] targets(
                board,
                other,
                x,
                y,
            ),
        !(first_char(cells[cell_index(area, x, y)].symbol) matches Some(c) && is_diagonal_glyph(
            c,
        )),
    ensures
        tiles_drawn(cells, area, board, start, tile_count())[cell_index(area, x, y)].symbol
            == seq!['X'],
{
    let cell = cells[cell_index(area, x, y)];
    let early = turn_of(first);
    let late = turn_of(second);
    let going = board.direction(first.y as int, first.x as int);
    let coming = board.direction(second.y as int, second.x as int);
    lemma_turn_of_tile(first);
    lemma_turn_of_tile(second);
    lemma_tiles_drawn_at(cells, area, board, start, x, y, tile_count());
    lemma_connector_off_glyph_cells(first, going);
    lemma_connector_off_glyph_cells(second, coming);
    assert forall|k: int| 0 <= k < tile_count() && k != early && k != late implies glyph_cell(
        #[trigger] scan_position(k),
    ) != (x, y) && !targets(board, scan_position(k), x, y) by {
        lemma_scan_visits_board(k);
    }
    lemma_quiet_turns(cell, board, start, x, y, 0, early as nat);
    lemma_quiet_turns(cell, board, start, x, y, (early + 1) as nat, late as nat);
    lemma_quiet_turns(cell, board, start, x, y, (late + 1) as nat, tile_count());
}

/// Two connectors that cross leave a cross. Where the connectors of two
/// tiles lie in the same cell and one of them is diagonal, where no third
/// tile's connector lies in that cell, and where the cell did not show a
/// diagonal connector before the board was drawn, the cell shows `X` once
/// the board is drawn.
pub proof fn lemma_crossing_connectors(
    cells: Seq<CellView>,
    area: Area,
    board: Board,
    start: Option<TilePosition>,
    one: TilePosition,
    other: TilePosition,
    x: int,
    y: int,
)
    requires
        board.wf(),
        holds_board(area, cells.len()),
        one.on_board(),
        other.on_board(),
        one != other,
        targets(board, one, x, y),
        targets(board, other, x, y),
        board.direction(one.y as int, one.x as int).is_diagonal() || board.direction(
            other.y as int,
            other.x as int,
        ).is_diagonal(),
        forall|third: TilePosition|
            third.on_board() && third != one && third != other ==> !#[trigger] targets(
                board,
                third,
                x,
                y,
            ),
        !(first_char(cells[cell_index(area, x, y)].symbol) matches Some(c) && is_diagonal_glyph(
            c,
        )),
    ensures
        tiles_drawn(cells, area, board, start, tile_count())[cell_index(area, x, y)].symbol
            == seq!['X'],
{
    lemma_turn_of_tile(one);
    lemma_turn_of_tile(other);
    if turn_of(one) < turn_of(other) {
        lemma_crossing_in_order(cells, area, board, start, one, other, x, y);
    } else {
        lemma_crossing_in_order(cells, area, board, start, other, one, x, y);
    }
}

} // verus!
