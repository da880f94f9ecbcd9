//! Terminal presentation layer of a tile-matching combat game: the mapping
//! between screen cells and board tiles, the two-mode cursor, the drawing of
//! the selection chain between tiles, and the dispatch of key presses.

pub mod chain;
pub mod connectors;
pub mod cursor;
pub mod game;
pub mod input;
pub mod screen;
pub mod text;
pub mod widget;
