//! The fixed dimensions of the window and of the two grids, and where each
//! cell's edges fall.

use vstd::prelude::*;
use crate::geometry::{nearest, round_div, Rect};

verus! {

/// The window's title.
pub const NAME: &'static str = "Tiles 2";

/// The window's width in pixels.
pub const WIDTH: u32 = 800;

/// The window's height in pixels.
pub const HEIGHT: u32 = 600;

/// The frames drawn per second.
pub const FPS: u32 = 60;

/// The number of columns of the play area and of the legend.
pub const HORIZ_TILE_NUM: usize = 16;

/// The number of rows of the play area.
pub const VERT_TILE_NUM: usize = 12;

/// The number of rows of the legend.
pub const LEGEND_TILE_NUM: usize = HORIZ_TILE_NUM - VERT_TILE_NUM;

/// The play area's width in pixels.
pub const GAME_AREA_WIDTH: u32 = 800;

/// The play area's height in pixels: the window's, less two twelfths of it.
pub const GAME_AREA_HEIGHT: u32 = HEIGHT - 2 * (HEIGHT / VERT_TILE_NUM as u32);

/// The x-coordinate at which column `col` begins: the whole pixel nearest to
/// `col` cell widths, a cell being a sixteenth of the play area wide.
pub open spec fn column_edge(col: int) -> int {
    nearest(col * GAME_AREA_WIDTH, HORIZ_TILE_NUM as int)
}

/// The distance from a grid's top to the beginning of its row `row`: the
/// whole pixel nearest to `row` cell heights, a cell being a twelfth of the
/// play area high.
pub open spec fn row_edge(row: int) -> int {
    nearest(row * GAME_AREA_HEIGHT, VERT_TILE_NUM as int)
}

/// The rectangle of the cell in column `col` and row `row` of a grid whose
/// first row begins at `top`. It reaches from its own edges to the next
/// column's and the next row's.
pub open spec fn cell_rect(top: int, col: int, row: int) -> Rect {
    Rect {
        x: column_edge(col) as i32,
        y: (top + row_edge(row)) as i32,
        width: (column_edge(col + 1) - column_edge(col)) as u32,
        height: (row_edge(row + 1) - row_edge(row)) as u32,
    }
}

/// The play area is five hundred pixels high.
pub proof fn lemma_game_area_height()
    ensures
        GAME_AREA_HEIGHT == 500,
{
    assert(VERT_TILE_NUM as u32 == 12);
    assert(HEIGHT / 12 == 50);
}

/// Columns are fifty pixels apart.
pub proof fn lemma_column_edge(col: int)
    ensures
        column_edge(col) == 50 * col,
{
    assert(column_edge(col) == (1600 * col + 16) / 32);
}

/// Rows begin at the top, and each is forty-one or forty-two pixels high.
pub proof fn lemma_row_edge(row: int)
    ensures
        row_edge(0) == 0,
        row_edge(row) + 41 <= row_edge(row + 1) <= row_edge(row) + 42,
{
    lemma_game_area_height();
    assert(row_edge(row) == (1000 * row + 12) / 24);
    assert(row_edge(row + 1) == (1000 * row + 1012) / 24);
    assert(row_edge(0) == 12int / 24);
}

/// A row's edge lies between forty-one and forty-two pixels per row.
pub proof fn lemma_row_edge_bounds(row: int)
    requires
        0 <= row,
    ensures
        41 * row <= row_edge(row) <= 42 * row,
    decreases row,
{
    if row > 0 {
        lemma_row_edge_bounds(row - 1);
        lemma_row_edge(row - 1);
    }
}

/// Later rows begin further down.
pub proof fn lemma_row_edge_increases(low: int, high: int)
    requires
        low <= high,
    ensures
        row_edge(low) <= row_edge(high),
    decreases high - low,
{
    if low < high {
        lemma_row_edge_increases(low, high - 1);
        lemma_row_edge(high - 1);
    }
}

/// A pixel row that lies within the first `rows` rows lies in one of them.
pub proof fn lemma_row_exists(y: int, rows: int) -> (row: int)
    requires
        0 <= y < row_edge(rows),
    ensures
        0 <= row < rows,
        row_edge(row) <= y < row_edge(row + 1),
    decreases rows,
{
    lemma_row_edge(rows - 1);
    if rows <= 0 {
        lemma_row_edge_increases(rows, 0);
        0
    } else if y >= row_edge(rows - 1) {
        rows - 1
    } else {
        lemma_row_exists(y, rows - 1)
    }
}

/// What a cell's rectangle covers: fifty pixel columns from its column's
/// edge, and the pixel rows from its row's edge to the next row's.
pub proof fn lemma_cell_rect(top: int, col: int, row: int)
    requires
        0 <= top <= GAME_AREA_HEIGHT,
        0 <= col < HORIZ_TILE_NUM,
        0 <= row < VERT_TILE_NUM,
    ensures
        cell_rect(top, col, row).wf(),
        cell_rect(top, col, row).x == 50 * col,
        cell_rect(top, col, row).width == 50,
        cell_rect(top, col, row).y == top + row_edge(row),
        cell_rect(top, col, row).y + cell_rect(top, col, row).height == top + row_edge(row + 1),
{
    lemma_game_area_height();
    lemma_column_edge(col);
    lemma_column_edge(col + 1);
    lemma_row_edge(row);
    lemma_row_edge_bounds(row);
}

/// The x-coordinate at which column `col` begins; `col` may be the number of
/// columns, which gives the right edge of the last one.
pub fn column_left(col: usize) -> (x: u32)
    requires
        col <= HORIZ_TILE_NUM,
    ensures
        x == column_edge(col as int),
        x == 50 * col,
{
    proof {
        lemma_column_edge(col as int);
    }
    round_div(col as u32 * GAME_AREA_WIDTH, HORIZ_TILE_NUM as u32)
}

/// The distance from a grid's top to the beginning of row `row`; `row` may be
/// the number of rows, which gives the bottom edge of the last one.
pub fn row_top(row: usize) -> (y: u32)
    requires
        row <= VERT_TILE_NUM,
    ensures
        y == row_edge(row as int),
        y <= GAME_AREA_HEIGHT,
{
    proof {
        lemma_game_area_height();
        lemma_row_edge_increases(row as int, VERT_TILE_NUM as int);
        assert(row_edge(VERT_TILE_NUM as int) == 12012int / 24);
    }
    round_div(row as u32 * GAME_AREA_HEIGHT, VERT_TILE_NUM as u32)
}

/// The rectangle of the cell in column `col` and row `row` of a grid whose
/// first row begins at `top`.
pub fn cell_rect_at(top: i32, col: usize, row: usize) -> (r: Rect)
    requires
        0 <= top <= GAME_AREA_HEIGHT,
        col < HORIZ_TILE_NUM,
        row < VERT_TILE_NUM,
    ensures
        r == cell_rect(top as int, col as int, row as int),
        r.wf(),
{
    let left: u32 = column_left(col);
    let right: u32 = column_left(col + 1);
    let upper: u32 = row_top(row);
    let lower: u32 = row_top(row + 1);
    proof {
        lemma_game_area_height();
        lemma_row_edge(row as int);
    }
    Rect::new(left as i32, top + upper as i32, right - left, lower - upper)
}

} // verus!
