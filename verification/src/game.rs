//! What a frame shows of the game: a snapshot of the board, the player and
//! the pending choice, as plain values.

use crate::chain::{link_on_board, RelativeDirection};
use crate::cursor::{TilePosition, BOARD_HEIGHT, BOARD_WIDTH};
use crate::screen::Paint;
use vstd::prelude::*;

verus! {

/// The kind of a tile.
#[derive(Copy, Clone, Debug, PartialEq, Eq, Structural)]
pub enum TileType {
    Potion,
    Shield,
    Coin,
    Sword,
    Enemy,
    Special,
    /// Any kind that has no glyph of its own.
    Other,
}

/// Combat figures of the player or of a monster.
#[derive(Copy, Clone, Debug, PartialEq, Eq, Structural)]
pub struct Being {
    pub hit_points: i64,
    pub max_hit_points: i64,
    pub shields: i64,
    pub max_shields: i64,
    pub base_output_damage: i64,
}

/// What a tile holds beyond its kind.
#[derive(Clone, Debug)]
pub enum TileInfo {
    Enemy(Being),
    Special { name: String, being: Being },
    Nothing,
}

/// One cell of the board.
#[derive(Clone, Debug)]
pub struct Tile {
    pub tile_type: TileType,
    pub tile_info: TileInfo,
    /// Direction to the tile selected after this one.
    pub next_selection: RelativeDirection,
}

/// An ability in one of the player's slots.
#[derive(Clone, Debug)]
pub struct Ability {
    pub name: String,
    pub running_cooldown: i64,
}

/// The player's figures and ability slots.
#[derive(Clone, Debug)]
pub struct Player {
    pub being: Being,
    pub coin_cents: i64,
    pub coin_cents_per_purchase: i64,
    pub excess_shield_cents: i64,
    pub excess_shield_cents_per_upgrade: i64,
    pub experience_point_cents: i64,
    pub experience_point_cents_per_level_up: i64,
    pub abilities: Vec<Option<Ability>>,
}

/// A special encounter that is on the board.
#[derive(Clone, Debug)]
pub struct SpecialEncounter {
    pub name: String,
    pub description: String,
}

/// A pending menu of improvements.
#[derive(Clone, Debug)]
pub struct ImprovementChoiceSet {
    pub header: String,
    /// One description for each option.
    pub displays: Vec<String>,
    pub num_choices: usize,
    pub num_to_choose: usize,
}

/// The tiles of the board, row by row.
#[derive(Clone, Debug)]
pub struct Board {
    pub tiles: Vec<Vec<Tile>>,
}

/// All that a frame shows of the game.
#[derive(Clone, Debug)]
pub struct GameSnapshot {
    pub incoming_damage: i64,
    pub player: Player,
    pub specials: Vec<SpecialEncounter>,
    pub improvement_choice_set: Option<ImprovementChoiceSet>,
    pub board: Board,
    /// The tile at which the selection chain starts.
    pub selection_start: Option<TilePosition>,
}

impl Board {
    /// The board has the full number of rows and columns.
    pub open spec fn full(self) -> bool {
        &&& self.tiles@.len() == BOARD_HEIGHT
        &&& forall|row: int| 0 <= row < BOARD_HEIGHT ==> (#[trigger] self.tiles@[row])@.len()
            == BOARD_WIDTH
    }

    /// The tile in a row and column.
    pub open spec fn tile(self, row: int, col: int) -> Tile {
        self.tiles@[row]@[col]
    }

    /// The direction of the tile in a row and column.
    pub open spec fn direction(self, row: int, col: int) -> RelativeDirection {
        self.tile(row, col).next_selection
    }

    /// The board is full, and the direction of every tile leads to a tile of
    /// the board or nowhere.
    pub open spec fn wf(self) -> bool {
        &&& self.full()
        &&& forall|row: int, col: int|
            0 <= row < BOARD_HEIGHT && 0 <= col < BOARD_WIDTH ==> link_on_board(
                TilePosition { y: row as isize, x: col as isize },
                #[trigger] self.direction(row, col),
            )
    }

    /// The tile at a position of the board.
    pub fn get_tile(&self, tp: &TilePosition) -> (tile: &Tile)
        requires
            self.full(),
            tp.on_board(),
        ensures
            *tile == self.tile(tp.y as int, tp.x as int),
    {
        &self.tiles[tp.y as usize][tp.x as usize]
    }

    /// Tells whether the direction of a tile leads to a tile of the board or
    /// nowhere.
    fn link_stays(tp: TilePosition, direction: RelativeDirection) -> (b: bool)
        requires
            tp.on_board(),
        ensures
            b == link_on_board(tp, direction),
    {
        match direction.offset() {
            None => true,
            Some(step) => {
                let next = TilePosition::new(tp.y + step.y, tp.x + step.x);
                next.is_on_board()
            },
        }
    }

    /// Tells whether the board is well formed.
    pub fn is_well_formed(&self) -> (b: bool)
        ensures
            b == self.wf(),
    {
        if self.tiles.len() != BOARD_HEIGHT as usize {
            return false;
        }
        let mut row: usize = 0;
        while row < BOARD_HEIGHT as usize
            invariant
                row <= BOARD_HEIGHT,
                self.tiles@.len() == BOARD_HEIGHT,
                forall|r: int| 0 <= r < row ==> (#[trigger] self.tiles@[r])@.len() == BOARD_WIDTH,
            decreases BOARD_HEIGHT - row,
        {
            if self.tiles[row].len() != BOARD_WIDTH as usize {
                return false;
            }
            row += 1;
        }
        let mut row: usize = 0;
        while row < BOARD_HEIGHT as usize
            invariant
                row <= BOARD_HEIGHT,
                self.full(),
                forall|r: int, c: int|
                    0 <= r < row && 0 <= c < BOARD_WIDTH ==> link_on_board(
                        TilePosition { y: r as isize, x: c as isize },
                        #[trigger] self.direction(r, c),
                    ),
            decreases BOARD_HEIGHT - row,
        {
            let mut col: usize = 0;
            while col < BOARD_WIDTH as usize
                invariant
                    row < BOARD_HEIGHT,
                    col <= BOARD_WIDTH,
                    self.full(),
                    forall|r: int, c: int|
                        0 <= r < row && 0 <= c < BOARD_WIDTH ==> link_on_board(
                            TilePosition { y: r as isize, x: c as isize },
                            #[trigger] self.direction(r, c),
                        ),
                    forall|c: int|
                        0 <= c < col ==> link_on_board(
                            TilePosition { y: row as isize, x: c as isize },
                            #[trigger] self.direction(row as int, c),
                        ),
                decreases BOARD_WIDTH - col,
            {
                let tp = TilePosition::new(row as isize, col as isize);
                if !Self::link_stays(tp, self.tiles[row][col].next_selection) {
                    assert(!link_on_board(
                        TilePosition { y: row as isize, x: col as isize },
                        self.direction(row as int, col as int),
                    ));
                    return false;
                }
                col += 1;
            }
            row += 1;
        }
        true
    }
}

/// The glyph that stands for a kind of tile.
pub fn blot_char_from_tile_type(tile_type: TileType) -> (blot: char)
    ensures
        blot == blot_of(tile_type),
{
    match tile_type {
        TileType::Potion => 'p',
        TileType::Shield => 's',
        TileType::Coin => 'c',
        TileType::Sword => 'S',
        TileType::Enemy => 'E',
        TileType::Special => 'B',
        TileType::Other => '!',
    }
}

/// The glyph of each kind of tile.
pub open spec fn blot_of(tile_type: TileType) -> char {
    match tile_type {
        TileType::Potion => 'p',
        TileType::Shield => 's',
        TileType::Coin => 'c',
        TileType::Sword => 'S',
        TileType::Enemy => 'E',
        TileType::Special => 'B',
        TileType::Other => '!',
    }
}

/// Background and foreground of each kind of tile, in this order.
pub open spec fn colors_of(tile_type: TileType) -> (Paint, Paint) {
    match tile_type {
        TileType::Potion => (Paint::LightMagenta, Paint::Black),
        TileType::Shield => (Paint::Blue, Paint::Black),
        TileType::Coin => (Paint::Yellow, Paint::Black),
        TileType::Sword => (Paint::Green, Paint::Black),
        TileType::Enemy => (Paint::Red, Paint::Black),
        TileType::Special => (Paint::White, Paint::Black),
        TileType::Other => (Paint::Black, Paint::White),
    }
}

/// The background and the foreground that a kind of tile is painted in.
pub fn bg_fg_color_from_tile_type(tile_type: TileType) -> (colors: (Paint, Paint))
    ensures
        colors == colors_of(tile_type),
{
    match tile_type {
        TileType::Potion => (Paint::LightMagenta, Paint::Black),
        TileType::Shield => (Paint::Blue, Paint::Black),
        TileType::Coin => (Paint::Yellow, Paint::Black),
        TileType::Sword => (Paint::Green, Paint::Black),
        TileType::Enemy => (Paint::Red, Paint::Black),
        TileType::Special => (Paint::White, Paint::Black),
        TileType::Other => (Paint::Black, Paint::White),
    }
}

} // verus!
