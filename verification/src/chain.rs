//! The selection chain: the direction from a tile to the tile selected after
//! it, and the connector that is drawn between the two.

use crate::cursor::{
    cursor_position_from_tile_position, glyph_cell, TilePosition, BOARD_HEIGHT, BOARD_WIDTH,
    PLAYING_CURSOR_MAX_DOWN, PLAYING_CURSOR_MAX_RIGHT,
};
use vstd::prelude::*;

verus! {

/// Direction from a tile to the tile selected next in the chain, or nowhere
/// where the chain ends at the tile or the tile is in no chain.
#[derive(Copy, Clone, Debug, PartialEq, Eq, Structural)]
pub enum RelativeDirection {
    Up,
    UpRight,
    Right,
    DownRight,
    Down,
    DownLeft,
    Left,
    UpLeft,
    Nowhere,
}

/// A connector glyph and the screen cell it is written to.
#[derive(Copy, Clone, Debug, PartialEq, Eq, Structural)]
pub struct Connector {
    pub x: u16,
    pub y: u16,
    pub glyph: char,
}

impl RelativeDirection {
    /// Rows to go down: -1, 0 or 1.
    pub open spec fn dy(self) -> int {
        match self {
            RelativeDirection::Up | RelativeDirection::UpRight | RelativeDirection::UpLeft => -1,
            RelativeDirection::Down
            | RelativeDirection::DownRight
            | RelativeDirection::DownLeft => 1,
            RelativeDirection::Left | RelativeDirection::Right | RelativeDirection::Nowhere => 0,
        }
    }

    /// Columns to go right: -1, 0 or 1.
    pub open spec fn dx(self) -> int {
        match self {
            RelativeDirection::Left | RelativeDirection::UpLeft | RelativeDirection::DownLeft => -1,
            RelativeDirection::Right
            | RelativeDirection::UpRight
            | RelativeDirection::DownRight => 1,
            RelativeDirection::Up | RelativeDirection::Down | RelativeDirection::Nowhere => 0,
        }
    }

    /// The direction leads to another tile.
    pub open spec fn links(self) -> bool {
        self != RelativeDirection::Nowhere
    }

    pub open spec fn is_vertical(self) -> bool {
        self == RelativeDirection::Up || self == RelativeDirection::Down
    }

    pub open spec fn is_horizontal(self) -> bool {
        self == RelativeDirection::Left || self == RelativeDirection::Right
    }

    /// Up and to the left, or down and to the right.
    pub open spec fn is_falling_diagonal(self) -> bool {
        self == RelativeDirection::UpLeft || self == RelativeDirection::DownRight
    }

    /// Up and to the right, or down and to the left.
    pub open spec fn is_rising_diagonal(self) -> bool {
        self == RelativeDirection::UpRight || self == RelativeDirection::DownLeft
    }

    pub open spec fn is_diagonal(self) -> bool {
        self.is_falling_diagonal() || self.is_rising_diagonal()
    }

    /// The glyph of the connector towards this direction.
    pub open spec fn glyph(self) -> char {
        offset_glyph(self.dy(), self.dx())
    }

    /// Tells whether the direction leads to another tile.
    pub fn is_link(self) -> (b: bool)
        ensures
            b == self.links(),
    {
        match self {
            RelativeDirection::Nowhere => false,
            _ => true,
        }
    }

    /// The step to the next tile as a row and column offset: one of the eight
    /// unit vectors for a direction that links, nothing for the one that does
    /// not.
    pub fn offset(self) -> (step: Option<TilePosition>)
        ensures
            step is Some <==> self.links(),
            step matches Some(tp) ==> tp.y == self.dy() && tp.x == self.dx() && is_unit_offset(
                tp.y as int,
                tp.x as int,
            ),
    {
        match self {
            RelativeDirection::Up => Some(TilePosition::new(-1, 0)),
            RelativeDirection::UpRight => Some(TilePosition::new(-1, 1)),
            RelativeDirection::Right => Some(TilePosition::new(0, 1)),
            RelativeDirection::DownRight => Some(TilePosition::new(1, 1)),
            RelativeDirection::Down => Some(TilePosition::new(1, 0)),
            RelativeDirection::DownLeft => Some(TilePosition::new(1, -1)),
            RelativeDirection::Left => Some(TilePosition::new(0, -1)),
            RelativeDirection::UpLeft => Some(TilePosition::new(-1, -1)),
            RelativeDirection::Nowhere => None,
        }
    }
}

/// One of the eight unit vectors: each part is -1, 0 or 1, and not both are 0.
pub open spec fn is_unit_offset(dy: int, dx: int) -> bool {
    -1 <= dy <= 1 && -1 <= dx <= 1 && !(dy == 0 && dx == 0)
}

/// The glyph for an offset: a bar between rows, a dash between columns, a
/// backslash where row and column grow or shrink together, a slash where one
/// grows and the other shrinks.
pub open spec fn offset_glyph(dy: int, dx: int) -> char {
    if dx == 0 {
        '|'
    } else if dy == 0 {
        '-'
    } else if dy == dx {
        '\\'
    } else {
        '/'
    }
}

/// The glyph marks a diagonal connector.
pub open spec fn is_diagonal_glyph(glyph: char) -> bool {
    glyph == '/' || glyph == '\\'
}

/// The tile that a direction leads to from a tile.
pub open spec fn successor(tp: TilePosition, direction: RelativeDirection) -> (int, int) {
    (tp.y + direction.dy(), tp.x + direction.dx())
}

/// The direction leads from a tile of the board to a tile of the board, or
/// nowhere.
pub open spec fn link_on_board(tp: TilePosition, direction: RelativeDirection) -> bool {
    direction.links() ==> {
        &&& 0 <= successor(tp, direction).0 < BOARD_HEIGHT
        &&& 0 <= successor(tp, direction).1 < BOARD_WIDTH
    }
}

/// Screen cell of the connector from a tile towards a direction, column
/// first: one cell from the tile's glyph, halfway to the glyph of the next
/// tile.
pub open spec fn connector_cell(tp: TilePosition, direction: RelativeDirection) -> (int, int) {
    (glyph_cell(tp).0 + direction.dx(), glyph_cell(tp).1 + direction.dy())
}

/// The glyph of the connector for a step to the next tile.
pub fn connector_glyph(step: TilePosition) -> (glyph: char)
    requires
        is_unit_offset(step.y as int, step.x as int),
    ensures
        glyph == offset_glyph(step.y as int, step.x as int),
        step.x == 0 ==> glyph == '|',
        step.y == 0 ==> glyph == '-',
        step.y != 0 && step.y == step.x ==> glyph == '\\',
        step.x != 0 && step.y == -step.x ==> glyph == '/',
{
    if step.y == -1 {
        if step.x == -1 {
            '\\'
        } else if step.x == 0 {
            '|'
        } else {
            '/'
        }
    } else if step.y == 0 {
        '-'
    } else {
        if step.x == -1 {
            '/'
        } else if step.x == 0 {
            '|'
        } else {
            '\\'
        }
    }
}

/// The connector that a tile writes: none where its direction leads nowhere;
/// else the glyph of the direction, in the cell between the tile's glyph and
/// the next tile's.
pub fn connector_of(tp: TilePosition, direction: RelativeDirection) -> (connector: Option<
    Connector,
>)
    requires
        tp.on_board(),
        link_on_board(tp, direction),
    ensures
        connector is Some <==> direction.links(),
        connector matches Some(c) ==> {
            &&& (c.x as int, c.y as int) == connector_cell(tp, direction)
            &&& c.glyph == direction.glyph()
            &&& c.x <= PLAYING_CURSOR_MAX_RIGHT - 1
            &&& c.y <= PLAYING_CURSOR_MAX_DOWN - 1
        },
        direction.is_vertical() ==> (connector matches Some(c) && c.glyph == '|'),
        direction.is_horizontal() ==> (connector matches Some(c) && c.glyph == '-'),
        direction.is_falling_diagonal() ==> (connector matches Some(c) && c.glyph == '\\'),
        direction.is_rising_diagonal() ==> (connector matches Some(c) && c.glyph == '/'),
{
    match direction.offset() {
        None => None,
        Some(step) => {
            let (blot_x, blot_y) = cursor_position_from_tile_position(tp);
            let glyph = connector_glyph(step);
            let y = if step.y == -1 {
                blot_y - 1
            } else if step.y == 1 {
                blot_y + 1
            } else {
                blot_y
            };
            let x = if step.x == -1 {
                blot_x - 1
            } else if step.x == 1 {
                blot_x + 1
            } else {
                blot_x
            };
            Some(Connector { x, y, glyph })
        },
    }
}

/// The glyph that is written where a connector meets what the cell holds: a
/// cross where the cell shows a diagonal connector, the connector's own glyph
/// anywhere else.
pub open spec fn crossing(existing: Option<char>, glyph: char) -> char {
    match existing {
        Some(c) => if is_diagonal_glyph(c) {
            'X'
        } else {
            glyph
        },
        None => glyph,
    }
}

/// Picks the glyph to write for a connector, given the first character of
/// what its cell holds.
pub fn resolve_crossing(existing: Option<char>, glyph: char) -> (written: char)
    ensures
        written == crossing(existing, glyph),
        existing == Some('/') || existing == Some('\\') ==> written == 'X',
        existing != Some('/') && existing != Some('\\') ==> written == glyph,
{
    match existing {
        Some('/') => 'X',
        Some('\\') => 'X',
        _ => glyph,
    }
}

/// A connector lies on a glyph cell of no tile: a straight one in an odd row
/// or an odd column, a diagonal one in both.
pub proof fn lemma_connector_off_glyph_cells(tp: TilePosition, direction: RelativeDirection)
    requires
        direction.links(),
    ensures
        direction.is_diagonal() <==> connector_cell(tp, direction).0 % 2 != 0 && connector_cell(
            tp,
            direction,
        ).1 % 2 != 0,
        connector_cell(tp, direction).0 % 2 != 0 || connector_cell(tp, direction).1 % 2 != 0,
{
}

} // verus!
