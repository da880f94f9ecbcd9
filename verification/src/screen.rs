//! The screen buffer that a frame is drawn on, and what this library knows of
//! it.
//!
//! The buffer is `ratatui`'s. It is seen here as a rectangle of screen
//! coordinates, its area, and a row-by-row sequence of cells. Each function
//! below that reads or writes it makes one call into `ratatui`; its contract is
//! taken from that crate's source and is not proved.

use ratatui::buffer::Buffer;
use ratatui::style::{Color, Modifier, Style};
use vstd::prelude::*;

verus! {

/// The colours that this library paints with.
#[derive(Copy, Clone, Debug, PartialEq, Eq, Structural)]
pub enum Paint {
    Black,
    Red,
    Green,
    Yellow,
    Blue,
    LightMagenta,
    White,
}

/// The rectangle of screen coordinates that a buffer stands for.
#[derive(Copy, Clone, Debug, PartialEq, Eq, Structural)]
pub struct Area {
    pub x: u16,
    pub y: u16,
    pub width: u16,
    pub height: u16,
}

/// What this library sees of one cell of a buffer: the characters of its
/// symbol; its foreground and background, where they are colours of the
/// palette; and whether it blinks rapidly.
pub struct CellView {
    pub symbol: Seq<char>,
    pub fg: Option<Paint>,
    pub bg: Option<Paint>,
    pub rapid_blink: bool,
}

#[verifier::external_type_specification]
#[verifier::external_body]
pub struct ExBuffer(ratatui::buffer::Buffer);

/// The cells of a buffer, in the order in which the buffer stores them.
pub uninterp spec fn buffer_cells(buf: Buffer) -> Seq<CellView>;

/// The area of a buffer.
pub uninterp spec fn buffer_area(buf: Buffer) -> Area;

/// The cells of a buffer after a text was printed on it in the unchanged
/// style, starting at a coordinate: what `Buffer::set_string` makes of the
/// cells, which depends on how the text splits into graphemes and on their
/// widths.
pub uninterp spec fn printed(cells: Seq<CellView>, area: Area, x: u16, y: u16, text: Seq<char>) -> Seq<
    CellView,
>;

/// First column to the right of an area; it saturates where the screen
/// coordinates end.
pub open spec fn area_right(a: Area) -> int {
    if a.x + a.width > u16::MAX {
        u16::MAX as int
    } else {
        a.x + a.width
    }
}

/// First row below an area; it saturates where the screen coordinates end.
pub open spec fn area_bottom(a: Area) -> int {
    if a.y + a.height > u16::MAX {
        u16::MAX as int
    } else {
        a.y + a.height
    }
}

/// The coordinate lies in the area.
pub open spec fn in_area(a: Area, x: int, y: int) -> bool {
    a.x <= x < area_right(a) && a.y <= y < area_bottom(a)
}

/// Place of a coordinate's cell in the sequence of cells: rows follow one
/// another, each as wide as the area.
pub open spec fn cell_index(a: Area, x: int, y: int) -> int {
    (y - a.y) * a.width + (x - a.x)
}

/// A buffer with this area and this many cells holds a cell for the
/// coordinate: the coordinate lies in the area, and the cell's place can be
/// computed in sixteen bits and lies in the sequence of cells.
pub open spec fn holds_in(a: Area, len: nat, x: int, y: int) -> bool {
    &&& in_area(a, x, y)
    &&& cell_index(a, x, y) <= u16::MAX
    &&& cell_index(a, x, y) < len
}

/// A buffer with this area and this many cells holds the cell of the
/// coordinate and those to its right, up to the right edge of the area.
pub open spec fn holds_row_in(a: Area, len: nat, x: int, y: int) -> bool {
    &&& holds_in(a, len, x, y)
    &&& cell_index(a, x, y) + (area_right(a) - x) <= len
}

/// The buffer holds a cell for the coordinate.
pub open spec fn holds_cell(buf: Buffer, x: int, y: int) -> bool {
    holds_in(buffer_area(buf), buffer_cells(buf).len(), x, y)
}

/// The buffer holds the cell of the coordinate and those to its right, up to
/// the right edge of its area.
pub open spec fn holds_row_from(buf: Buffer, x: int, y: int) -> bool {
    holds_row_in(buffer_area(buf), buffer_cells(buf).len(), x, y)
}

/// The cell at a coordinate.
pub open spec fn cell_at(buf: Buffer, x: int, y: int) -> CellView {
    buffer_cells(buf)[cell_index(buffer_area(buf), x, y)]
}

/// First character of a symbol, if it has one.
pub open spec fn first_char(symbol: Seq<char>) -> Option<char> {
    if symbol.len() > 0 {
        Some(symbol[0])
    } else {
        None
    }
}

/// `Buffer::area`: the area of the buffer, field by field.
#[verifier::external_body]
pub(crate) fn area_of(buf: &Buffer) -> (a: Area)
    ensures
        a == buffer_area(*buf),
{
    let r = buf.area();
    Area { x: r.x, y: r.y, width: r.width, height: r.height }
}

/// `Buffer::content`: the number of cells that the buffer stores.
#[verifier::external_body]
pub(crate) fn cell_count(buf: &Buffer) -> (n: usize)
    ensures
        n == buffer_cells(*buf).len(),
{
    buf.content().len()
}

/// `Buffer::get`: reads the cell at a coordinate and hands out the first
/// character of its symbol. The call panics for a coordinate whose cell the
/// buffer does not hold.
#[verifier::external_body]
pub(crate) fn first_symbol_char(buf: &Buffer, x: u16, y: u16) -> (c: Option<char>)
    requires
        holds_cell(*buf, x as int, y as int),
    ensures
        c == first_char(cell_at(*buf, x as int, y as int).symbol),
{
    buf.get(x, y).symbol.chars().next()
}

/// `Buffer::get_mut` and `Cell::set_char`: the symbol of the cell at a
/// coordinate becomes the one character; nothing else changes.
#[verifier::external_body]
pub(crate) fn put_char(buf: &mut Buffer, x: u16, y: u16, ch: char)
    requires
        holds_cell(*old(buf), x as int, y as int),
    ensures
        buffer_area(*final(buf)) == buffer_area(*old(buf)),
        buffer_cells(*final(buf)) == buffer_cells(*old(buf)).update(
            cell_index(buffer_area(*old(buf)), x as int, y as int),
            (CellView { symbol: seq![ch], ..cell_at(*old(buf), x as int, y as int) }),
        ),
{
    buf.get_mut(x, y).set_char(ch);
}

/// `Buffer::get_mut` and `Cell::set_bg`: the background of the cell at a
/// coordinate becomes the colour; nothing else changes.
#[verifier::external_body]
pub(crate) fn put_bg(buf: &mut Buffer, x: u16, y: u16, paint: Paint)
    requires
        holds_cell(*old(buf), x as int, y as int),
    ensures
        buffer_area(*final(buf)) == buffer_area(*old(buf)),
        buffer_cells(*final(buf)) == buffer_cells(*old(buf)).update(
            cell_index(buffer_area(*old(buf)), x as int, y as int),
            (CellView { bg: Some(paint), ..cell_at(*old(buf), x as int, y as int) }),
        ),
{
    let color = match paint {
        Paint::Black => Color::Black,
        Paint::Red => Color::Red,
        Paint::Green => Color::Green,
        Paint::Yellow => Color::Yellow,
        Paint::Blue => Color::Blue,
        Paint::LightMagenta => Color::LightMagenta,
        Paint::White => Color::White,
    };
    buf.get_mut(x, y).set_bg(color);
}

/// `Buffer::get_mut` and `Cell::set_fg`: the foreground of the cell at a
/// coordinate becomes the colour; nothing else changes.
#[verifier::external_body]
pub(crate) fn put_fg(buf: &mut Buffer, x: u16, y: u16, paint: Paint)
    requires
        holds_cell(*old(buf), x as int, y as int),
    ensures
        buffer_area(*final(buf)) == buffer_area(*old(buf)),
        buffer_cells(*final(buf)) == buffer_cells(*old(buf)).update(
            cell_index(buffer_area(*old(buf)), x as int, y as int),
            (CellView { fg: Some(paint), ..cell_at(*old(buf), x as int, y as int) }),
        ),
{
    let color = match paint {
        Paint::Black => Color::Black,
        Paint::Red => Color::Red,
        Paint::Green => Color::Green,
        Paint::Yellow => Color::Yellow,
        Paint::Blue => Color::Blue,
        Paint::LightMagenta => Color::LightMagenta,
        Paint::White => Color::White,
    };
    buf.get_mut(x, y).set_fg(color);
}

/// `Buffer::get_mut` and `Cell::set_style`, with a style that adds the rapid
/// blink and nothing else: the cell at a coordinate blinks; nothing else
/// changes.
#[verifier::external_body]
pub(crate) fn put_blink(buf: &mut Buffer, x: u16, y: u16)
    requires
        holds_cell(*old(buf), x as int, y as int),
    ensures
        buffer_area(*final(buf)) == buffer_area(*old(buf)),
        buffer_cells(*final(buf)) == buffer_cells(*old(buf)).update(
            cell_index(buffer_area(*old(buf)), x as int, y as int),
            (CellView { rapid_blink: true, ..cell_at(*old(buf), x as int, y as int) }),
        ),
{
    buf.get_mut(x, y).set_style(Style::default().add_modifier(Modifier::RAPID_BLINK));
}

/// `Buffer::set_string`, with the style that changes nothing: prints the text
/// from a coordinate towards the right edge of the area. The cells from the
/// coordinate's to the last of its row become what `printed` names; no other
/// cell changes, and none is added or removed. The call panics for a
/// coordinate whose cell the buffer does not hold.
#[verifier::external_body]
pub(crate) fn print(buf: &mut Buffer, x: u16, y: u16, text: &str)
    requires
        holds_row_from(*old(buf), x as int, y as int),
    ensures
        buffer_area(*final(buf)) == buffer_area(*old(buf)),
        buffer_cells(*final(buf)) == printed(
            buffer_cells(*old(buf)),
            buffer_area(*old(buf)),
            x,
            y,
            text@,
        ),
        buffer_cells(*final(buf)).len() == buffer_cells(*old(buf)).len(),
        forall|i: int|
            0 <= i < buffer_cells(*old(buf)).len() && !(cell_index(
                buffer_area(*old(buf)),
                x as int,
                y as int,
            ) <= i < cell_index(buffer_area(*old(buf)), x as int, y as int) + (area_right(
                buffer_area(*old(buf)),
            ) - x)) ==> #[trigger] buffer_cells(*final(buf))[i] == buffer_cells(*old(buf))[i],
{
    buf.set_string(x, y, text, Style::default());
}

/// Within an area, two coordinates share a cell only if they are the same.
pub proof fn lemma_cells_apart(a: Area, x1: int, y1: int, x2: int, y2: int)
    requires
        in_area(a, x1, y1),
        in_area(a, x2, y2),
        cell_index(a, x1, y1) == cell_index(a, x2, y2),
    ensures
        x1 == x2,
        y1 == y2,
{
    let w = a.width as int;
    let r1 = y1 - a.y;
    let r2 = y2 - a.y;
    if r1 < r2 {
        assert((r1 + 1) * w <= r2 * w) by (nonlinear_arith)
            requires
                r1 + 1 <= r2,
                w >= 0,
        ;
        assert((r1 + 1) * w == r1 * w + w) by (nonlinear_arith);
    } else if r2 < r1 {
        assert((r2 + 1) * w <= r1 * w) by (nonlinear_arith)
            requires
                r2 + 1 <= r1,
                w >= 0,
        ;
        assert((r2 + 1) * w == r2 * w + w) by (nonlinear_arith);
    }
}

/// Within an area, a cell to the left of another, or above it, comes before
/// it in the sequence of cells.
pub proof fn lemma_cells_in_order(a: Area, x1: int, y1: int, x2: int, y2: int)
    requires
        in_area(a, x1, y1),
        in_area(a, x2, y2),
        y1 < y2 || (y1 == y2 && x1 <= x2),
    ensures
        0 <= cell_index(a, x1, y1) <= cell_index(a, x2, y2),
        y1 < y2 ==> cell_index(a, x1, y1) + (area_right(a) - x1) <= cell_index(a, x2, y2),
{
    let w = a.width as int;
    let r1 = y1 - a.y;
    let r2 = y2 - a.y;
    assert(0 <= r1 * w) by (nonlinear_arith)
        requires
            r1 >= 0,
            w >= 0,
    ;
    if r1 < r2 {
        assert((r1 + 1) * w <= r2 * w) by (nonlinear_arith)
            requires
                r1 + 1 <= r2,
                w >= 0,
        ;
        assert((r1 + 1) * w == r1 * w + w) by (nonlinear_arith);
    }
}

/// Tells whether the buffer holds a cell for the coordinate.
pub fn holds(buf: &Buffer, x: u16, y: u16) -> (b: bool)
    ensures
        b == holds_cell(*buf, x as int, y as int),
{
    let a = area_of(buf);
    let len = cell_count(buf);
    let right: u32 = if a.x as u32 + a.width as u32 > 65535 {
        65535
    } else {
        a.x as u32 + a.width as u32
    };
    let bottom: u32 = if a.y as u32 + a.height as u32 > 65535 {
        65535
    } else {
        a.y as u32 + a.height as u32
    };
    if x < a.x || x as u32 >= right || y < a.y || y as u32 >= bottom {
        return false;
    }
    let row: u64 = (y - a.y) as u64;
    let width: u64 = a.width as u64;
    assert(row * width <= 65535 * 65535) by (nonlinear_arith)
        requires
            row <= 65535,
            width <= 65535,
    ;
    let index: u64 = row * width + (x - a.x) as u64;
    index <= 65535 && index < len as u64
}

/// Tells whether the buffer holds the cell of the coordinate and those to its
/// right, up to the right edge of its area.
pub fn holds_row(buf: &Buffer, x: u16, y: u16) -> (b: bool)
    ensures
        b == holds_row_from(*buf, x as int, y as int),
{
    if !holds(buf, x, y) {
        return false;
    }
    let a = area_of(buf);
    let len = cell_count(buf);
    let right: u64 = if a.x as u64 + a.width as u64 > 65535 {
        65535
    } else {
        a.x as u64 + a.width as u64
    };
    let row: u64 = (y - a.y) as u64;
    let width: u64 = a.width as u64;
    assert(row * width <= 65535 * 65535) by (nonlinear_arith)
        requires
            row <= 65535,
            width <= 65535,
    ;
    let index: u64 = row * width + (x - a.x) as u64;
    index + (right - x as u64) <= len as u64
}

} // verus!
