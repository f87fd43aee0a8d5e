//! A grid of cells, stored column by column.

use vstd::prelude::*;
use crate::geometry::Rect;
use crate::layout::{
    cell_rect, cell_rect_at, lemma_cell_rect, lemma_game_area_height, lemma_row_edge,
    lemma_row_edge_bounds, lemma_row_edge_increases, lemma_row_exists, row_edge, row_top,
    GAME_AREA_HEIGHT, GAME_AREA_WIDTH, HORIZ_TILE_NUM, LEGEND_TILE_NUM, VERT_TILE_NUM,
};
use crate::tile::{DrawCommand, Tile, TileState};

verus! {

/// Sixteen columns of cells, each column holding the same number of rows.
pub struct Grid {
    cells: Vec<Vec<Tile>>,
    top: i32,
    rows: usize,
}

impl View for Grid {
    type V = Seq<Seq<Tile>>;

    /// The cells, column by column: `self@[col][row]`.
    closed spec fn view(&self) -> Seq<Seq<Tile>> {
        Seq::new(self.cells@.len(), |col: int| self.cells@[col]@)
    }
}

/// `cells` holds sixteen columns of `rows` cells, and each cell lies where
/// the layout puts it for a grid that begins at `top`.
pub open spec fn laid_out(cells: Seq<Seq<Tile>>, top: int, rows: int) -> bool {
    &&& 0 <= top <= GAME_AREA_HEIGHT
    &&& 1 <= rows <= VERT_TILE_NUM
    &&& cells.len() == HORIZ_TILE_NUM
    &&& forall|col: int| 0 <= col < cells.len() ==> (#[trigger] cells[col]).len() == rows
    &&& forall|col: int, row: int|
        0 <= col < cells.len() && 0 <= row < rows ==> (#[trigger] cells[col][row]).rect
            == cell_rect(top, col, row)
}

/// The cell in row `row` of column `col` exists and contains the pixel
/// `(px, py)`.
pub open spec fn hit(cells: Seq<Seq<Tile>>, px: int, py: int, row: int, col: int) -> bool {
    &&& 0 <= col < cells.len()
    &&& 0 <= row < cells[col].len()
    &&& cells[col][row].rect.contains(px, py)
}

/// The row and column of a cell that contains the pixel `(px, py)`, if there
/// is one. In a grid that is laid out there is at most one.
pub open spec fn cell_at(cells: Seq<Seq<Tile>>, px: int, py: int) -> Option<(int, int)> {
    if exists|row: int, col: int| hit(cells, px, py, row, col) {
        Some(choose|row: int, col: int| hit(cells, px, py, row, col))
    } else {
        None
    }
}

/// The cells with the state of one of them replaced.
pub open spec fn with_state(cells: Seq<Seq<Tile>>, row: int, col: int, state: TileState) -> Seq<
    Seq<Tile>,
> {
    cells.update(col, cells[col].update(row, (Tile { rect: cells[col][row].rect, tile_state: state })))
}

/// The screen region that a grid of `rows` rows beginning at `top` fills.
pub open spec fn region_of(top: int, rows: int) -> Rect {
    Rect { x: 0, y: top as i32, width: GAME_AREA_WIDTH, height: row_edge(rows) as u32 }
}

/// The cells' rectangles tile `region`: every pixel of the region lies in a
/// cell, every cell lies in the region, and no pixel lies in two cells.
pub open spec fn tiles_exactly(cells: Seq<Seq<Tile>>, region: Rect) -> bool {
    &&& forall|px: int, py: int|
        region.contains(px, py) ==> exists|row: int, col: int| hit(cells, px, py, row, col)
    &&& forall|px: int, py: int, row: int, col: int| #[trigger]
        hit(cells, px, py, row, col) ==> region.contains(px, py)
    &&& forall|px: int, py: int, row: int, col: int, other_row: int, other_col: int|
        #[trigger] hit(cells, px, py, row, col) && #[trigger] hit(
            cells,
            px,
            py,
            other_row,
            other_col,
        ) ==> row == other_row && col == other_col
}

/// The draws that show the cells, column by column and each column from its
/// first row down.
pub open spec fn draw_list(cells: Seq<Seq<Tile>>) -> Seq<DrawCommand> {
    cells.flatten().map_values(|tile: Tile| tile.spec_draw())
}

/// Cells that are laid out tile the region of their grid, with no gap and no
/// overlap.
pub proof fn lemma_layout_tiles(cells: Seq<Seq<Tile>>, top: int, rows: int)
    requires
        laid_out(cells, top, rows),
    ensures
        tiles_exactly(cells, region_of(top, rows)),
        region_of(top, rows).wf(),
        region_of(top, rows).y == top,
        region_of(top, rows).height == row_edge(rows),
{
    let region = region_of(top, rows);
    lemma_game_area_height();
    lemma_row_edge_bounds(rows);
    lemma_row_edge(0);
    assert forall|px: int, py: int| region.contains(px, py) implies exists|row: int, col: int|
        hit(cells, px, py, row, col) by {
        let col = px / 50;
        let row = lemma_row_exists(py - top, rows);
        assert(cells[col].len() == rows);
        assert(cells[col][row].rect == cell_rect(top, col, row));
        lemma_cell_rect(top, col, row);
        assert(hit(cells, px, py, row, col));
    }
    assert forall|px: int, py: int, row: int, col: int| #[trigger]
        hit(cells, px, py, row, col) implies region.contains(px, py) by {
        assert(cells[col].len() == rows);
        assert(cells[col][row].rect == cell_rect(top, col, row));
        lemma_cell_rect(top, col, row);
        lemma_row_edge_increases(0, row);
        lemma_row_edge_increases(row + 1, rows);
    }
    assert forall|px: int, py: int, row: int, col: int, other_row: int, other_col: int|
        #[trigger] hit(cells, px, py, row, col) && #[trigger] hit(
            cells,
            px,
            py,
            other_row,
            other_col,
        ) implies row == other_row && col == other_col by {
        assert(cells[col].len() == rows);
        assert(cells[other_col].len() == rows);
        assert(cells[col][row].rect == cell_rect(top, col, row));
        assert(cells[other_col][other_row].rect == cell_rect(top, other_col, other_row));
        lemma_cell_rect(top, col, row);
        lemma_cell_rect(top, other_col, other_row);
        if row < other_row {
            lemma_row_edge_increases(row + 1, other_row);
        }
        if other_row < row {
            lemma_row_edge_increases(other_row + 1, row);
        }
    }
}

/// In cells that are laid out, a cell that contains a pixel is the cell at
/// that pixel.
pub proof fn lemma_cell_at(cells: Seq<Seq<Tile>>, top: int, rows: int, px: int, py: int, row: int, col: int)
    requires
        laid_out(cells, top, rows),
        hit(cells, px, py, row, col),
    ensures
        cell_at(cells, px, py) == Some((row, col)),
{
    lemma_layout_tiles(cells, top, rows);
    let found = choose|r: int, c: int| hit(cells, px, py, r, c);
    assert(hit(cells, px, py, found.0, found.1));
}

/// Where each cell's draw stands in the draw list of columns of `rows` cells:
/// the columns follow one another, each from its first row down.
pub proof fn lemma_draw_list_index(cells: Seq<Seq<Tile>>, rows: int, row: int, col: int)
    requires
        forall|c: int| 0 <= c < cells.len() ==> (#[trigger] cells[c]).len() == rows,
        0 <= col < cells.len(),
        0 <= row < rows,
    ensures
        draw_list(cells).len() == cells.len() * rows,
        0 <= col * rows + row < draw_list(cells).len(),
        draw_list(cells)[col * rows + row] == cells[col][row].spec_draw(),
    decreases cells.len(),
{
    let front = cells.drop_last();
    let last = cells.last();
    let n = cells.len() as int;
    assert(cells == front.push(last));
    front.lemma_flatten_push(last);
    assert(cells.flatten() == front.flatten() + last);
    assert((n - 1) * rows + rows == n * rows) by (nonlinear_arith);
    if n == 1 {
        assert(front.flatten().len() == 0);
        assert(col * rows + row == row) by (nonlinear_arith)
            requires
                col == 0,
        ;
    } else {
        assert forall|c: int| 0 <= c < front.len() implies (#[trigger] front[c]).len() == rows by {
            assert(front[c] == cells[c]);
        }
        if col < n - 1 {
            lemma_draw_list_index(front, rows, row, col);
            assert(front[col] == cells[col]);
        } else {
            lemma_draw_list_index(front, rows, 0, 0);
        }
        assert(front.flatten().len() == (n - 1) * rows);
    }
    if col == n - 1 {
        assert(cells.flatten()[(n - 1) * rows + row] == last[row]);
    }
}

/// Every draw of cells that are laid out goes onto a well-formed rectangle,
/// which the screen takes as it is.
pub proof fn lemma_draw_list_rects(cells: Seq<Seq<Tile>>, top: int, rows: int)
    requires
        laid_out(cells, top, rows),
    ensures
        forall|i: int| 0 <= i < draw_list(cells).len() ==> (#[trigger] draw_list(cells)[i]).dest.wf(),
{
    assert forall|col: int, row: int| 0 <= col < cells.len() && 0 <= row < cells[col].len() implies (
    #[trigger] cells[col][row]).rect.wf() by {
        assert(cells[col].len() == rows);
        assert(cells[col][row].rect == cell_rect(top, col, row));
        lemma_cell_rect(top, col, row);
    }
    lemma_flat_rects(cells);
}

/// Where every cell's rectangle is well formed, so is every draw's.
proof fn lemma_flat_rects(cells: Seq<Seq<Tile>>)
    requires
        forall|col: int, row: int|
            0 <= col < cells.len() && 0 <= row < cells[col].len() ==> (#[trigger] cells[col][row]).rect.wf(),
    ensures
        forall|i: int| 0 <= i < draw_list(cells).len() ==> (#[trigger] draw_list(cells)[i]).dest.wf(),
    decreases cells.len(),
{
    if cells.len() > 0 {
        let front = cells.drop_last();
        let last = cells.last();
        assert(cells == front.push(last));
        front.lemma_flatten_push(last);
        assert forall|col: int, row: int|
            0 <= col < front.len() && 0 <= row < front[col].len() implies (
        #[trigger] front[col][row]).rect.wf() by {
            assert(front[col] == cells[col]);
            assert(cells[col][row].rect.wf());
        }
        lemma_flat_rects(front);
        assert forall|i: int| 0 <= i < draw_list(cells).len() implies (#[trigger] draw_list(
            cells,
        )[i]).dest.wf() by {
            let split = front.flatten().len() as int;
            if i < split {
                assert(draw_list(cells)[i] == draw_list(front)[i]);
            } else {
                assert(draw_list(cells)[i] == last[i - split].spec_draw());
                assert(cells[cells.len() - 1][i - split].rect.wf());
            }
        }
    }
}

impl Grid {
    /// The y-coordinate at which the first row begins.
    pub closed spec fn spec_top(&self) -> i32 {
        self.top
    }

    /// The number of rows.
    pub closed spec fn spec_rows(&self) -> usize {
        self.rows
    }

    /// The number of columns.
    pub open spec fn spec_cols(&self) -> usize {
        HORIZ_TILE_NUM
    }

    /// The grid has its full set of cells, each in its place.
    pub open spec fn wf(&self) -> bool {
        laid_out(self@, self.spec_top() as int, self.spec_rows() as int)
    }

    /// The state of the cell in row `row` of column `col`.
    pub open spec fn state_at(&self, row: int, col: int) -> TileState {
        self@[col][row].tile_state
    }

    /// The rectangle of the cell in row `row` of column `col`.
    pub open spec fn rect_at(&self, row: int, col: int) -> Rect {
        self@[col][row].rect
    }

    /// `row` and `col` name a cell of this grid.
    pub open spec fn in_bounds(&self, row: int, col: int) -> bool {
        0 <= row < self.spec_rows() && 0 <= col < self.spec_cols()
    }

    /// The y-coordinate at which the first row begins.
    #[verifier::when_used_as_spec(spec_top)]
    pub fn top(&self) -> (t: i32)
        ensures
            t == self.spec_top(),
    {
        self.top
    }

    /// The number of rows.
    #[verifier::when_used_as_spec(spec_rows)]
    pub fn rows(&self) -> (n: usize)
        ensures
            n == self.spec_rows(),
    {
        self.rows
    }

    /// The number of columns.
    #[verifier::when_used_as_spec(spec_cols)]
    pub fn cols(&self) -> (n: usize)
        ensures
            n == self.spec_cols(),
    {
        HORIZ_TILE_NUM
    }

    /// A grid of `rows` rows that begins at `top`, every cell in `state`.
    fn build(top: i32, rows: usize, state: TileState) -> (grid: Grid)
        requires
            0 <= top <= GAME_AREA_HEIGHT,
            1 <= rows <= VERT_TILE_NUM,
        ensures
            grid.wf(),
            grid.spec_top() == top,
            grid.spec_rows() == rows,
            forall|row: int, col: int| grid.in_bounds(row, col) ==> grid.state_at(row, col) == state,
    {
        let mut cells: Vec<Vec<Tile>> = Vec::with_capacity(HORIZ_TILE_NUM);
        let mut col: usize = 0;
        while col < HORIZ_TILE_NUM
            invariant
                0 <= top <= GAME_AREA_HEIGHT,
                1 <= rows <= VERT_TILE_NUM,
                col <= HORIZ_TILE_NUM,
                cells@.len() == col,
                forall|c: int| 0 <= c < col ==> (#[trigger] cells@[c])@.len() == rows,
                forall|c: int, r: int|
                    0 <= c < col && 0 <= r < rows ==> (#[trigger] cells@[c]@[r]) == (Tile {
                        rect: cell_rect(top as int, c, r),
                        tile_state: state,
                    }),
            decreases HORIZ_TILE_NUM - col,
        {
            let mut column: Vec<Tile> = Vec::with_capacity(rows);
            let mut row: usize = 0;
            while row < rows
                invariant
                    0 <= top <= GAME_AREA_HEIGHT,
                    1 <= rows <= VERT_TILE_NUM,
                    col < HORIZ_TILE_NUM,
                    row <= rows,
                    column@.len() == row,
                    forall|r: int|
                        0 <= r < row ==> (#[trigger] column@[r]) == (Tile {
                            rect: cell_rect(top as int, col as int, r),
                            tile_state: state,
                        }),
                decreases rows - row,
            {
                column.push(Tile { rect: cell_rect_at(top, col, row), tile_state: state });
                row += 1;
            }
            cells.push(column);
            col += 1;
        }
        let grid = Grid { cells, top, rows };
        proof {
            assert forall|c: int| 0 <= c < grid@.len() implies (#[trigger] grid@[c]).len()
                == rows by {
                assert(grid.cells@[c]@.len() == rows);
            }
            assert forall|c: int, r: int| 0 <= c < grid@.len() && 0 <= r < rows implies (
            #[trigger] grid@[c][r]) == (Tile {
                rect: cell_rect(top as int, c, r),
                tile_state: state,
            }) by {
                assert(grid.cells@[c]@[r] == grid@[c][r]);
            }
        }
        grid
    }

    /// The play area: twelve rows from the top of the window, every cell an
    /// untouched tile.
    pub fn play_area() -> (grid: Grid)
        ensures
            grid.wf(),
            grid.spec_top() == 0,
            grid.spec_rows() == VERT_TILE_NUM,
            grid@.len() == HORIZ_TILE_NUM,
            forall|col: int| 0 <= col < HORIZ_TILE_NUM ==> (#[trigger] grid@[col]).len() == VERT_TILE_NUM,
            forall|row: int, col: int|
                grid.in_bounds(row, col) ==> grid.state_at(row, col) == TileState::Tile,
            tiles_exactly(grid@, (Rect { x: 0, y: 0, width: 800, height: 500 })),
    {
        let grid = Grid::build(0, VERT_TILE_NUM, TileState::Tile);
        proof {
            lemma_game_area_height();
            lemma_layout_tiles(grid@, 0, VERT_TILE_NUM as int);
            assert(row_edge(VERT_TILE_NUM as int) == 12012int / 24);
        }
        grid
    }

    /// The legend: four rows directly below the play area, every cell a
    /// legend marker.
    pub fn legend() -> (grid: Grid)
        ensures
            grid.wf(),
            grid.spec_top() == GAME_AREA_HEIGHT,
            grid.spec_rows() == LEGEND_TILE_NUM,
            grid@.len() == HORIZ_TILE_NUM,
            forall|col: int| 0 <= col < HORIZ_TILE_NUM ==> (#[trigger] grid@[col]).len() == LEGEND_TILE_NUM,
            forall|row: int, col: int|
                grid.in_bounds(row, col) ==> grid.state_at(row, col) == TileState::Legend,
            tiles_exactly(grid@, (Rect { x: 0, y: 500, width: 800, height: 167 })),
    {
        proof {
            lemma_game_area_height();
        }
        let grid = Grid::build(GAME_AREA_HEIGHT as i32, LEGEND_TILE_NUM, TileState::Legend);
        proof {
            lemma_layout_tiles(grid@, GAME_AREA_HEIGHT as int, LEGEND_TILE_NUM as int);
            assert(row_edge(LEGEND_TILE_NUM as int) == 4012int / 24);
        }
        grid
    }

    /// The cell in row `row` of column `col`.
    pub fn tile(&self, row: usize, col: usize) -> (t: Tile)
        requires
            self.wf(),
            self.in_bounds(row as int, col as int),
        ensures
            t == self@[col as int][row as int],
    {
        proof {
            assert(self@[col as int].len() == self.rows);
        }
        self.cells[col][row]
    }

    /// The state of the cell in row `row` of column `col`.
    pub fn state(&self, row: usize, col: usize) -> (s: TileState)
        requires
            self.wf(),
            self.in_bounds(row as int, col as int),
        ensures
            s == self.state_at(row as int, col as int),
    {
        proof {
            assert(self@[col as int].len() == self.rows);
        }
        self.cells[col][row].tile_state
    }

    /// The rectangle of the cell in row `row` of column `col`.
    pub fn rect(&self, row: usize, col: usize) -> (r: Rect)
        requires
            self.wf(),
            self.in_bounds(row as int, col as int),
        ensures
            r == self.rect_at(row as int, col as int),
            r == cell_rect(self.spec_top() as int, col as int, row as int),
            r.wf(),
    {
        proof {
            assert(self@[col as int].len() == self.rows);
            lemma_cell_rect(self.top as int, col as int, row as int);
        }
        self.cells[col][row].rect
    }

    /// The region of the screen that the grid fills.
    pub fn region(&self) -> (r: Rect)
        requires
            self.wf(),
        ensures
            r == region_of(self.spec_top() as int, self.spec_rows() as int),
            tiles_exactly(self@, r),
    {
        proof {
            lemma_layout_tiles(self@, self.top as int, self.rows as int);
        }
        Rect::new(0, self.top, GAME_AREA_WIDTH, row_top(self.rows))
    }

    /// The row and column of the cell that contains the pixel `(x, y)`, if
    /// the pixel lies in the grid.
    pub fn find_cell(&self, x: i32, y: i32) -> (found: Option<(usize, usize)>)
        requires
            self.wf(),
        ensures
            match found {
                Some((row, col)) => cell_at(self@, x as int, y as int) == Some((row as int, col as int))
                    && self.in_bounds(row as int, col as int),
                None => cell_at(self@, x as int, y as int).is_none(),
            },
    {
        let mut col: usize = 0;
        while col < self.cells.len()
            invariant
                self.wf(),
                col <= self.cells@.len(),
                forall|r: int, c: int| 0 <= c < col ==> !hit(self@, x as int, y as int, r, c),
            decreases self.cells@.len() - col,
        {
            let mut row: usize = 0;
            while row < self.cells[col].len()
                invariant
                    self.wf(),
                    col < self.cells@.len(),
                    row <= self.cells@[col as int]@.len(),
                    forall|r: int, c: int| 0 <= c < col ==> !hit(self@, x as int, y as int, r, c),
                    forall|r: int| 0 <= r < row ==> !hit(self@, x as int, y as int, r, col as int),
                decreases self.cells@[col as int]@.len() - row,
            {
                proof {
                    assert(self@[col as int].len() == self.rows);
                    assert(self@[col as int][row as int].rect == cell_rect(
                        self.top as int,
                        col as int,
                        row as int,
                    ));
                    lemma_cell_rect(self.top as int, col as int, row as int);
                    lemma_game_area_height();
                    lemma_row_edge_bounds(row as int + 1);
                }
                if self.cells[col][row].rect.contains_point(x, y) {
                    proof {
                        assert(hit(self@, x as int, y as int, row as int, col as int));
                        lemma_cell_at(
                            self@,
                            self.top as int,
                            self.rows as int,
                            x as int,
                            y as int,
                            row as int,
                            col as int,
                        );
                    }
                    return Some((row, col));
                }
                row += 1;
            }
            col += 1;
        }
        None
    }

    /// Appends the draws that show the grid's cells, column by column.
    pub fn append_draws(&self, out: &mut Vec<DrawCommand>)
        requires
            self.wf(),
        ensures
            final(out)@ == old(out)@ + draw_list(self@),
            forall|i: int|
                old(out)@.len() <= i < final(out)@.len() ==> (#[trigger] final(out)@[i]).dest.wf(),
    {
        let ghost before = out@;
        proof {
            lemma_draw_list_rects(self@, self.top as int, self.rows as int);
            assert forall|i: int| before.len() <= i < (before + draw_list(self@)).len() implies (
            #[trigger] (before + draw_list(self@))[i]).dest.wf() by {
                assert((before + draw_list(self@))[i] == draw_list(self@)[i - before.len()]);
            }
        }
        let mut col: usize = 0;
        while col < self.cells.len()
            invariant
                self.wf(),
                col <= self.cells@.len(),
                out@ == before + draw_list(self@.take(col as int)),
            decreases self.cells@.len() - col,
        {
            let ghost done = out@;
            let mut row: usize = 0;
            while row < self.cells[col].len()
                invariant
                    col < self.cells@.len(),
                    row <= self.cells@[col as int]@.len(),
                    out@ == done + self.cells@[col as int]@.take(row as int).map_values(
                        |tile: Tile| tile.spec_draw(),
                    ),
                decreases self.cells@[col as int]@.len() - row,
            {
                out.push(self.cells[col][row].draw());
                proof {
                    let column = self.cells@[col as int]@;
                    assert(column.take(row as int + 1) == column.take(row as int).push(
                        column[row as int],
                    ));
                }
                row += 1;
            }
            proof {
                let column = self.cells@[col as int]@;
                assert(column.take(row as int) == column);
                assert(self@[col as int] == column);
                assert(self@.take(col as int + 1) == self@.take(col as int).push(column));
                self@.take(col as int).lemma_flatten_push(column);
                assert(draw_list(self@.take(col as int + 1)) == draw_list(self@.take(col as int))
                    + column.map_values(|tile: Tile| tile.spec_draw()));
            }
            col += 1;
        }
        proof {
            assert(self@.take(col as int) == self@);
        }
    }

    /// Sets the state of the cell in row `row` of column `col`, and of no
    /// other cell; no rectangle changes.
    pub fn set_state(&mut self, row: usize, col: usize, state: TileState)
        requires
            old(self).wf(),
            old(self).in_bounds(row as int, col as int),
        ensures
            final(self).wf(),
            final(self).spec_top() == old(self).spec_top(),
            final(self).spec_rows() == old(self).spec_rows(),
            final(self)@ == with_state(old(self)@, row as int, col as int, state),
            final(self).state_at(row as int, col as int) == state,
            forall|r: int, c: int|
                old(self).in_bounds(r, c) && (r != row || c != col) ==> final(self).state_at(r, c)
                    == old(self).state_at(r, c),
            forall|r: int, c: int|
                old(self).in_bounds(r, c) ==> final(self).rect_at(r, c) == old(self).rect_at(r, c),
    {
        proof {
            assert(self@[col as int].len() == self.rows);
        }
        self.cells[col][row].tile_state = state;
        proof {
            let before = old(self)@;
            let after = self@;
            assert forall|c: int| 0 <= c < after.len() implies (#[trigger] after[c]).len()
                == self.spec_rows() by {
                assert(before[c].len() == self.spec_rows());
            }
            assert forall|c: int, r: int|
                0 <= c < after.len() && 0 <= r < self.spec_rows() implies (#[trigger] after[c][r]).rect
                == cell_rect(self.spec_top() as int, c, r) by {
                assert(before[c][r].rect == cell_rect(self.spec_top() as int, c, r));
            }
        }
    }
}

} // verus!
