//! The frame: what the widget writes to the screen buffer, pass by pass.
//!
//! A frame is drawn in a fixed order. First the cells of the menu options
//! picked so far get a white background. Then come the status lines. Last
//! comes either the menu of improvements or the board: the line on the hovered
//! tile, then the tiles row by row, each with its glyph and, where it has a
//! successor in the selection chain, the connector towards it.

use crate::chain::{connector_cell, connector_of, crossing, link_on_board, resolve_crossing};
use crate::cursor::{
    cursor_position_from_tile_position, glyph_cell, tile_at_cursor,
    tile_position_from_cursor_position, TilePosition, BOARD_HEIGHT, BOARD_WIDTH,
    PLAYING_CURSOR_MAX_DOWN, PLAYING_CURSOR_MAX_RIGHT,
};
use crate::game::{
    bg_fg_color_from_tile_type, blot_char_from_tile_type, blot_of, colors_of, Board, GameSnapshot,
    Tile, TileType,
};
use crate::screen::{
    area_right, buffer_area, buffer_cells, cell_index, first_char, first_symbol_char, holds,
    holds_in, holds_row, holds_row_in, in_area, lemma_cells_in_order, print, printed, put_bg,
    put_blink, put_char, put_fg, Area, CellView, Paint,
};
use crate::text::{
    choice_lines, choice_prints, choices_fit, hover_line, hover_text, lemma_status_rows, shows,
    status_fits, status_lines, status_next_row, status_prints, PrintView, TextLine,
};
use ratatui::buffer::Buffer;
use vstd::prelude::*;

verus! {

/// What one frame is drawn from.
#[derive(Copy, Clone, Debug)]
pub struct GameWidget<'a> {
    pub game: &'a GameSnapshot,
    pub cursor_pos: (u16, u16),
    /// The cells of the menu options that are picked so far.
    pub improvement_choice_selection_positions: &'a Vec<(u16, u16)>,
}

/// Number of tiles on the board.
pub open spec fn tile_count() -> nat {
    (BOARD_WIDTH * BOARD_HEIGHT) as nat
}

/// The cells after the first `n` positions got a white background.
pub open spec fn highlighted(cells: Seq<CellView>, area: Area, positions: Seq<(u16, u16)>, n: nat) -> Seq<
    CellView,
>
    decreases n,
{
    if n == 0 {
        cells
    } else {
        let before = highlighted(cells, area, positions, (n - 1) as nat);
        let at = cell_index(area, positions[n - 1].0 as int, positions[n - 1].1 as int);
        before.update(at, CellView { bg: Some(Paint::White), ..before[at] })
    }
}

/// The cells after the first `n` lines were printed, one after the other.
pub open spec fn printed_all(cells: Seq<CellView>, area: Area, prints: Seq<PrintView>, n: nat) -> Seq<
    CellView,
>
    decreases n,
{
    if n == 0 {
        cells
    } else {
        printed(
            printed_all(cells, area, prints, (n - 1) as nat),
            area,
            prints[n - 1].x,
            prints[n - 1].y,
            prints[n - 1].text,
        )
    }
}

/// The lines as plain values.
pub open spec fn line_views(lines: Seq<TextLine>) -> Seq<PrintView> {
    Seq::new(lines.len(), |i: int| lines[i]@)
}

/// The cell of a tile's glyph once the tile is drawn: the glyph of its kind
/// in the colours of its kind. It blinks where the selection chain starts at
/// the tile; a cell that blinked before goes on blinking.
pub open spec fn painted(cell: CellView, tile_type: TileType, is_start: bool) -> CellView {
    CellView {
        symbol: seq![blot_of(tile_type)],
        fg: Some(colors_of(tile_type).1),
        bg: Some(colors_of(tile_type).0),
        rapid_blink: cell.rapid_blink || is_start,
    }
}

/// The cell of a connector once the connector is written: a cross where the
/// cell showed a diagonal connector, else the connector's glyph; colours and
/// blinking stay.
pub open spec fn connected(cell: CellView, glyph: char) -> CellView {
    CellView { symbol: seq![crossing(first_char(cell.symbol), glyph)], ..cell }
}

/// The cells after one tile was drawn: first its glyph, then, if its
/// direction links it to a successor, the connector.
pub open spec fn tile_drawn(
    cells: Seq<CellView>,
    area: Area,
    tile: Tile,
    tp: TilePosition,
    is_start: bool,
) -> Seq<CellView> {
    let at = cell_index(area, glyph_cell(tp).0, glyph_cell(tp).1);
    let with_glyph = cells.update(at, painted(cells[at], tile.tile_type, is_start));
    if tile.next_selection.links() {
        let to = cell_index(
            area,
            connector_cell(tp, tile.next_selection).0,
            connector_cell(tp, tile.next_selection).1,
        );
        with_glyph.update(to, connected(with_glyph[to], tile.next_selection.glyph()))
    } else {
        with_glyph
    }
}

/// The tile that is drawn at a turn: the board is scanned row by row, each
/// row from left to right.
pub open spec fn scan_position(turn: int) -> TilePosition {
    TilePosition { y: (turn / BOARD_WIDTH as int) as isize, x: (turn % BOARD_WIDTH as int) as isize }
}

/// The cells after the first `n` tiles of the scan were drawn.
pub open spec fn tiles_drawn(
    cells: Seq<CellView>,
    area: Area,
    board: Board,
    start: Option<TilePosition>,
    n: nat,
) -> Seq<CellView>
    decreases n,
{
    if n == 0 {
        cells
    } else {
        let tp = scan_position(n - 1);
        tile_drawn(
            tiles_drawn(cells, area, board, start, (n - 1) as nat),
            area,
            board.tile(tp.y as int, tp.x as int),
            tp,
            start == Some(tp),
        )
    }
}

/// A buffer with this area and this many cells holds every cell in which a
/// tile's glyph or a connector can lie.
pub open spec fn holds_board(area: Area, len: nat) -> bool {
    forall|x: int, y: int|
        0 <= x < PLAYING_CURSOR_MAX_RIGHT && 0 <= y < PLAYING_CURSOR_MAX_DOWN
            ==> #[trigger] holds_in(area, len, x, y)
}

/// A buffer with this area and this many cells holds a row for each line.
pub open spec fn holds_prints(area: Area, len: nat, prints: Seq<PrintView>) -> bool {
    forall|i: int|
        0 <= i < prints.len() ==> holds_row_in(
            area,
            len,
            (#[trigger] prints[i]).x as int,
            prints[i].y as int,
        )
}

/// A buffer with this area and this many cells holds a cell for each position.
pub open spec fn holds_positions(area: Area, len: nat, positions: Seq<(u16, u16)>) -> bool {
    forall|i: int|
        0 <= i < positions.len() ==> holds_in(
            area,
            len,
            (#[trigger] positions[i]).0 as int,
            positions[i].1 as int,
        )
}

/// None of the first `n` lines is printed on the row.
pub open spec fn row_free(prints: Seq<PrintView>, n: nat, y: int) -> bool {
    forall|i: int| 0 <= i < n && i < prints.len() ==> (#[trigger] prints[i]).y != y
}

/// Within an area, the cells of a row from a column to the right edge lie
/// apart from every cell of another row.
pub proof fn lemma_other_row_apart(area: Area, from_x: int, row: int, x: int, y: int)
    requires
        in_area(area, from_x, row),
        in_area(area, x, y),
        y != row,
    ensures
        !(cell_index(area, from_x, row) <= cell_index(area, x, y) < cell_index(
            area,
            from_x,
            row,
        ) + (area_right(area) - from_x)),
{
    if y < row {
        lemma_cells_in_order(area, x, y, from_x, row);
    } else {
        lemma_cells_in_order(area, from_x, row, x, y);
    }
}

/// A white background changes nothing else: every cell keeps its symbol, its
/// foreground and its blinking, and no cell is added or removed.
pub proof fn lemma_highlight_keeps_symbols(
    cells: Seq<CellView>,
    area: Area,
    positions: Seq<(u16, u16)>,
    n: nat,
)
    requires
        n <= positions.len(),
        holds_positions(area, cells.len(), positions),
    ensures
        highlighted(cells, area, positions, n).len() == cells.len(),
        forall|i: int|
            0 <= i < cells.len() ==> {
                &&& (#[trigger] highlighted(cells, area, positions, n)[i]).symbol
                    == cells[i].symbol
                &&& highlighted(cells, area, positions, n)[i].fg == cells[i].fg
                &&& highlighted(cells, area, positions, n)[i].rapid_blink
                    == cells[i].rapid_blink
            },
    decreases n,
{
    if n > 0 {
        lemma_highlight_keeps_symbols(cells, area, positions, (n - 1) as nat);
    }
}

/// Gives the cells at the positions a white background, first to last.
pub fn highlight(buf: &mut Buffer, positions: &Vec<(u16, u16)>)
    requires
        holds_positions(buffer_area(*old(buf)), buffer_cells(*old(buf)).len(), positions@),
    ensures
        buffer_area(*final(buf)) == buffer_area(*old(buf)),
        buffer_cells(*final(buf)) == highlighted(
            buffer_cells(*old(buf)),
            buffer_area(*old(buf)),
            positions@,
            positions@.len(),
        ),
        buffer_cells(*final(buf)).len() == buffer_cells(*old(buf)).len(),
{
    let mut index: usize = 0;
    while index < positions.len()
        invariant
            index <= positions@.len(),
            buffer_area(*buf) == buffer_area(*old(buf)),
            buffer_cells(*buf).len() == buffer_cells(*old(buf)).len(),
            holds_positions(buffer_area(*old(buf)), buffer_cells(*old(buf)).len(), positions@),
            buffer_cells(*buf) == highlighted(
                buffer_cells(*old(buf)),
                buffer_area(*old(buf)),
                positions@,
                index as nat,
            ),
        decreases positions@.len() - index,
    {
        let pos = positions[index];
        put_bg(buf, pos.0, pos.1, Paint::White);
        index += 1;
    }
}

/// Prints the lines, first to last.
pub fn print_lines(buf: &mut Buffer, lines: &Vec<TextLine>)
    requires
        holds_prints(
            buffer_area(*old(buf)),
            buffer_cells(*old(buf)).len(),
            line_views(lines@),
        ),
    ensures
        buffer_area(*final(buf)) == buffer_area(*old(buf)),
        buffer_cells(*final(buf)) == printed_all(
            buffer_cells(*old(buf)),
            buffer_area(*old(buf)),
            line_views(lines@),
            lines@.len(),
        ),
        buffer_cells(*final(buf)).len() == buffer_cells(*old(buf)).len(),
        forall|x: int, y: int|
            #![trigger cell_index(buffer_area(*old(buf)), x, y)]
            holds_in(buffer_area(*old(buf)), buffer_cells(*old(buf)).len(), x, y) && row_free(
                line_views(lines@),
                lines@.len(),
                y,
            ) ==> buffer_cells(*final(buf))[cell_index(buffer_area(*old(buf)), x, y)]
                == buffer_cells(*old(buf))[cell_index(buffer_area(*old(buf)), x, y)],
{
    let ghost area = buffer_area(*buf);
    let ghost len = buffer_cells(*buf).len();
    let mut index: usize = 0;
    while index < lines.len()
        invariant
            index <= lines@.len(),
            area == buffer_area(*old(buf)),
            len == buffer_cells(*old(buf)).len(),
            buffer_area(*buf) == area,
            buffer_cells(*buf).len() == len,
            holds_prints(area, len, line_views(lines@)),
            buffer_cells(*buf) == printed_all(
                buffer_cells(*old(buf)),
                area,
                line_views(lines@),
                index as nat,
            ),
            forall|x: int, y: int|
                #![trigger cell_index(area, x, y)]
                holds_in(area, len, x, y) && row_free(line_views(lines@), index as nat, y)
                    ==> buffer_cells(*buf)[cell_index(area, x, y)] == buffer_cells(
                    *old(buf),
                )[cell_index(area, x, y)],
        decreases lines@.len() - index,
    {
        let line = &lines[index];
        assert(line_views(lines@)[index as int] == line@);
        print(buf, line.x, line.y, line.text.as_str());
        index += 1;
        proof {
            assert forall|x: int, y: int|
                #![trigger cell_index(area, x, y)]
                holds_in(area, len, x, y) && row_free(
                    line_views(lines@),
                    index as nat,
                    y,
                ) implies buffer_cells(*buf)[cell_index(area, x, y)] == buffer_cells(
                *old(buf),
            )[cell_index(area, x, y)] by {
                lemma_other_row_apart(area, line.x as int, line.y as int, x, y);
            }
        }
    }
}

/// Draws one tile: its glyph in the colours of its kind, blinking where the
/// selection chain starts at it; then the connector towards its successor, as
/// a cross where the connector's cell shows a diagonal connector.
pub fn draw_tile(buf: &mut Buffer, tile: &Tile, tp: TilePosition, is_start: bool)
    requires
        tp.on_board(),
        link_on_board(tp, tile.next_selection),
        holds_board(buffer_area(*old(buf)), buffer_cells(*old(buf)).len()),
    ensures
        buffer_area(*final(buf)) == buffer_area(*old(buf)),
        buffer_cells(*final(buf)) == tile_drawn(
            buffer_cells(*old(buf)),
            buffer_area(*old(buf)),
            *tile,
            tp,
            is_start,
        ),
        buffer_cells(*final(buf)).len() == buffer_cells(*old(buf)).len(),
{
    let ghost area = buffer_area(*buf);
    let ghost len = buffer_cells(*buf).len();
    let (blot_x, blot_y) = cursor_position_from_tile_position(tp);
    let blot = blot_char_from_tile_type(tile.tile_type);
    let (bg_color, fg_color) = bg_fg_color_from_tile_type(tile.tile_type);
    assert(holds_in(area, len, blot_x as int, blot_y as int));
    put_bg(buf, blot_x, blot_y, bg_color);
    put_fg(buf, blot_x, blot_y, fg_color);
    if is_start {
        put_blink(buf, blot_x, blot_y);
    }
    put_char(buf, blot_x, blot_y, blot);
    match connector_of(tp, tile.next_selection) {
        None => {},
        Some(connector) => {
            assert(holds_in(area, len, connector.x as int, connector.y as int));
            let existing = first_symbol_char(buf, connector.x, connector.y);
            let glyph = resolve_crossing(existing, connector.glyph);
            put_char(buf, connector.x, connector.y, glyph);
        },
    }
}

/// Draws the tiles of the board, row by row and each row from left to right.
pub fn draw_tiles(buf: &mut Buffer, board: &Board, start: Option<TilePosition>)
    requires
        board.wf(),
        holds_board(buffer_area(*old(buf)), buffer_cells(*old(buf)).len()),
    ensures
        buffer_area(*final(buf)) == buffer_area(*old(buf)),
        buffer_cells(*final(buf)) == tiles_drawn(
            buffer_cells(*old(buf)),
            buffer_area(*old(buf)),
            *board,
            start,
            tile_count(),
        ),
        buffer_cells(*final(buf)).len() == buffer_cells(*old(buf)).len(),
{
    let mut row: u16 = 0;
    while row < BOARD_HEIGHT
        invariant
            row <= BOARD_HEIGHT,
            board.wf(),
            buffer_area(*buf) == buffer_area(*old(buf)),
            buffer_cells(*buf).len() == buffer_cells(*old(buf)).len(),
            holds_board(buffer_area(*old(buf)), buffer_cells(*old(buf)).len()),
            buffer_cells(*buf) == tiles_drawn(
                buffer_cells(*old(buf)),
                buffer_area(*old(buf)),
                *board,
                start,
                (row * BOARD_WIDTH) as nat,
            ),
        decreases BOARD_HEIGHT - row,
    {
        let mut col: u16 = 0;
        while col < BOARD_WIDTH
            invariant
                row < BOARD_HEIGHT,
                col <= BOARD_WIDTH,
                board.wf(),
                buffer_area(*buf) == buffer_area(*old(buf)),
                buffer_cells(*buf).len() == buffer_cells(*old(buf)).len(),
                holds_board(buffer_area(*old(buf)), buffer_cells(*old(buf)).len()),
                buffer_cells(*buf) == tiles_drawn(
                    buffer_cells(*old(buf)),
                    buffer_area(*old(buf)),
                    *board,
                    start,
                    (row * BOARD_WIDTH + col) as nat,
                ),
            decreases BOARD_WIDTH - col,
        {
            let tp = TilePosition::new(row as isize, col as isize);
            let tile = board.get_tile(&tp);
            let is_start = match start {
                Some(pos) => pos == tp,
                None => false,
            };
            assert(link_on_board(tp, board.direction(row as int, col as int)));
            draw_tile(buf, tile, tp, is_start);
            col += 1;
        }
        row += 1;
    }
}

/// Tells whether the buffer holds every cell in which a tile's glyph or a
/// connector can lie.
pub fn holds_board_cells(buf: &Buffer) -> (b: bool)
    ensures
        b == holds_board(buffer_area(*buf), buffer_cells(*buf).len()),
{
    let b = holds(buf, 0, 0) && holds(buf, PLAYING_CURSOR_MAX_RIGHT - 1, PLAYING_CURSOR_MAX_DOWN - 1);
    proof {
        let area = buffer_area(*buf);
        let len = buffer_cells(*buf).len();
        if b {
            assert forall|x: int, y: int|
                0 <= x < PLAYING_CURSOR_MAX_RIGHT && 0 <= y < PLAYING_CURSOR_MAX_DOWN
                implies #[trigger] holds_in(area, len, x, y) by {
                lemma_cells_in_order(
                    area,
                    x,
                    y,
                    PLAYING_CURSOR_MAX_RIGHT - 1,
                    PLAYING_CURSOR_MAX_DOWN - 1,
                );
            }
        }
    }
    b
}

/// Lines that show the prints have the prints as their plain values.
pub proof fn lemma_shown_lines(lines: Seq<TextLine>, prints: Seq<PrintView>)
    requires
        shows(lines, prints),
    ensures
        line_views(lines) == prints,
{
}

/// Tells whether the buffer holds a cell for each position.
pub fn holds_all_positions(buf: &Buffer, positions: &Vec<(u16, u16)>) -> (b: bool)
    ensures
        b == holds_positions(buffer_area(*buf), buffer_cells(*buf).len(), positions@),
{
    let mut index: usize = 0;
    while index < positions.len()
        invariant
            index <= positions@.len(),
            forall|i: int|
                0 <= i < index ==> holds_in(
                    buffer_area(*buf),
                    buffer_cells(*buf).len(),
                    (#[trigger] positions@[i]).0 as int,
                    positions@[i].1 as int,
                ),
        decreases positions@.len() - index,
    {
        let pos = positions[index];
        if !holds(buf, pos.0, pos.1) {
            return false;
        }
        index += 1;
    }
    true
}

/// Tells whether the buffer holds a row for each line.
pub fn holds_all_rows(buf: &Buffer, lines: &Vec<TextLine>) -> (b: bool)
    ensures
        b == holds_prints(buffer_area(*buf), buffer_cells(*buf).len(), line_views(lines@)),
{
    let mut index: usize = 0;
    while index < lines.len()
        invariant
            index <= lines@.len(),
            forall|i: int|
                0 <= i < index ==> holds_row_in(
                    buffer_area(*buf),
                    buffer_cells(*buf).len(),
                    (#[trigger] line_views(lines@)[i]).x as int,
                    line_views(lines@)[i].y as int,
                ),
        decreases lines@.len() - index,
    {
        let line = &lines[index];
        assert(line_views(lines@)[index as int] == line@);
        if !holds_row(buf, line.x, line.y) {
            return false;
        }
        index += 1;
    }
    true
}

impl<'a> GameWidget<'a> {
    /// The tile under the cursor.
    pub open spec fn hovered(self) -> Tile {
        self.game.board.tile(
            tile_at_cursor(self.cursor_pos).y as int,
            tile_at_cursor(self.cursor_pos).x as int,
        )
    }

    /// The frame can be drawn on a buffer with this area and this many cells:
    /// the buffer holds every cell that the frame writes to, the lines end on
    /// rows that a screen coordinate can name and, where the board is shown,
    /// the board is well formed and the cursor hovers over one of its tiles,
    /// of a kind that has a name.
    pub open spec fn can_render(self, area: Area, len: nat) -> bool {
        &&& holds_positions(area, len, self.improvement_choice_selection_positions@)
        &&& status_fits(*self.game)
        &&& holds_prints(area, len, status_prints(*self.game))
        &&& match self.game.improvement_choice_set {
            Some(set) => choices_fit(set) && holds_prints(area, len, choice_prints(set)),
            None => {
                &&& self.game.board.wf()
                &&& tile_at_cursor(self.cursor_pos).on_board()
                &&& self.hovered().tile_type != TileType::Other
                &&& holds_row_in(area, len, 0, status_next_row(*self.game))
                &&& holds_board(area, len)
            },
        }
    }

    /// The cells of the buffer once the picked options' cells are white.
    pub open spec fn lit(self, cells: Seq<CellView>, area: Area) -> Seq<CellView> {
        highlighted(
            cells,
            area,
            self.improvement_choice_selection_positions@,
            self.improvement_choice_selection_positions@.len(),
        )
    }

    /// The cells of the buffer once the status lines are printed.
    pub open spec fn with_status(self, cells: Seq<CellView>, area: Area) -> Seq<CellView> {
        printed_all(
            self.lit(cells, area),
            area,
            status_prints(*self.game),
            status_prints(*self.game).len(),
        )
    }

    /// The cells of the buffer once the line on the hovered tile is printed:
    /// what the tiles of the board are drawn on.
    pub open spec fn before_board(self, cells: Seq<CellView>, area: Area) -> Seq<CellView> {
        printed(
            self.with_status(cells, area),
            area,
            0,
            status_next_row(*self.game) as u16,
            hover_text(self.hovered()),
        )
    }

    /// The cells of the buffer after the frame was drawn on it.
    pub open spec fn rendered(self, cells: Seq<CellView>, area: Area) -> Seq<CellView> {
        match self.game.improvement_choice_set {
            Some(set) => printed_all(
                self.with_status(cells, area),
                area,
                choice_prints(set),
                choice_prints(set).len(),
            ),
            None => tiles_drawn(
                self.before_board(cells, area),
                area,
                self.game.board,
                self.game.selection_start,
                tile_count(),
            ),
        }
    }

    /// Draws the frame on the buffer: the picked options' cells in white, the
    /// status lines, then the menu of improvements if one is pending, else
    /// the line on the hovered tile and the board.
    pub fn render(self, _area: Area, buf: &mut Buffer)
        requires
            self.can_render(buffer_area(*old(buf)), buffer_cells(*old(buf)).len()),
        ensures
            buffer_area(*final(buf)) == buffer_area(*old(buf)),
            buffer_cells(*final(buf)) == self.rendered(
                buffer_cells(*old(buf)),
                buffer_area(*old(buf)),
            ),
            buffer_cells(*final(buf)).len() == buffer_cells(*old(buf)).len(),
            self.game.improvement_choice_set is None ==> self.before_board(
                buffer_cells(*old(buf)),
                buffer_area(*old(buf)),
            ).len() == buffer_cells(*old(buf)).len() && forall|x: int, y: int|
                #![trigger cell_index(buffer_area(*old(buf)), x, y)]
                0 <= x < PLAYING_CURSOR_MAX_RIGHT && 0 <= y < PLAYING_CURSOR_MAX_DOWN ==> {
                    let at = cell_index(buffer_area(*old(buf)), x, y);
                    let before = self.before_board(
                        buffer_cells(*old(buf)),
                        buffer_area(*old(buf)),
                    )[at];
                    &&& before.symbol == buffer_cells(*old(buf))[at].symbol
                    &&& before.fg == buffer_cells(*old(buf))[at].fg
                    &&& before.rapid_blink == buffer_cells(*old(buf))[at].rapid_blink
                    &&& before == self.lit(buffer_cells(*old(buf)), buffer_area(*old(buf)))[at]
                },
    {
        let ghost area = buffer_area(*buf);
        let ghost cells = buffer_cells(*buf);
        proof {
            lemma_highlight_keeps_symbols(
                cells,
                area,
                self.improvement_choice_selection_positions@,
                self.improvement_choice_selection_positions@.len(),
            );
            lemma_status_rows(*self.game);
        }
        highlight(buf, self.improvement_choice_selection_positions);
        let panel = match status_lines(self.game) {
            Some(panel) => panel,
            None => {
                return ;
            },
        };
        proof {
            lemma_shown_lines(panel.lines@, status_prints(*self.game));
        }
        print_lines(buf, &panel.lines);
        match &self.game.improvement_choice_set {
            Some(set) => {
                match choice_lines(set) {
                    Some(lines) => {
                        proof {
                            lemma_shown_lines(lines@, choice_prints(*set));
                        }
                        print_lines(buf, &lines);
                    },
                    None => {},
                }
            },
            None => {
                let tp = tile_position_from_cursor_position(self.cursor_pos);
                let hover_tile = self.game.board.get_tile(&tp);
                let hover_string = hover_line(hover_tile);
                print(buf, 0, panel.next_row, hover_string.as_str());
                proof {
                    let lit = self.lit(cells, area);
                    let before = buffer_cells(*buf);
                    assert forall|x: int, y: int|
                        #![trigger cell_index(area, x, y)]
                        0 <= x < PLAYING_CURSOR_MAX_RIGHT && 0 <= y
                            < PLAYING_CURSOR_MAX_DOWN implies {
                        let at = cell_index(area, x, y);
                        &&& before[at].symbol == cells[at].symbol
                        &&& before[at].fg == cells[at].fg
                        &&& before[at].rapid_blink == cells[at].rapid_blink
                        &&& before[at] == lit[at]
                    } by {
                        lemma_cells_in_order(area, x, y, x, y);
                        assert(lit[cell_index(area, x, y)].symbol == cells[cell_index(
                            area,
                            x,
                            y,
                        )].symbol);
                        lemma_other_row_apart(area, 0, panel.next_row as int, x, y);
                    }
                }
                draw_tiles(buf, &self.game.board, self.game.selection_start);
            },
        }
    }

    /// Tells whether the frame can be drawn on the buffer.
    pub fn fits(&self, buf: &Buffer) -> (b: bool)
        ensures
            b == self.can_render(buffer_area(*buf), buffer_cells(*buf).len()),
    {
        if !holds_all_positions(buf, self.improvement_choice_selection_positions) {
            return false;
        }
        let panel = match status_lines(self.game) {
            Some(panel) => panel,
            None => {
                return false;
            },
        };
        proof {
            lemma_shown_lines(panel.lines@, status_prints(*self.game));
        }
        if !holds_all_rows(buf, &panel.lines) {
            return false;
        }
        match &self.game.improvement_choice_set {
            Some(set) => {
                match choice_lines(set) {
                    Some(lines) => {
                        proof {
                            lemma_shown_lines(lines@, choice_prints(*set));
                        }
                        holds_all_rows(buf, &lines)
                    },
                    None => false,
                }
            },
            None => {
                if !self.game.board.is_well_formed() {
                    return false;
                }
                let tp = tile_position_from_cursor_position(self.cursor_pos);
                if !tp.is_on_board() {
                    return false;
                }
                let hover_tile = self.game.board.get_tile(&tp);
                match hover_tile.tile_type {
                    TileType::Other => {
                        return false;
                    },
                    _ => {},
                }
                holds_row(buf, 0, panel.next_row) && holds_board_cells(buf)
            },
        }
    }

    /// Draws the frame on the buffer if it can be drawn there, and says
    /// whether it did; a frame that cannot be drawn leaves the buffer as it
    /// is.
    pub fn try_render(self, area: Area, buf: &mut Buffer) -> (drawn: bool)
        ensures
            drawn == self.can_render(buffer_area(*old(buf)), buffer_cells(*old(buf)).len()),
            buffer_area(*final(buf)) == buffer_area(*old(buf)),
            drawn ==> buffer_cells(*final(buf)) == self.rendered(
                buffer_cells(*old(buf)),
                buffer_area(*old(buf)),
            ),
            !drawn ==> *final(buf) == *old(buf),
    {
        if self.fits(buf) {
            self.render(area, buf);
            true
        } else {
            false
        }
    }
}

} // verus!
