//! The grid of cells, in row-major order.

use vstd::prelude::*;

verus! {

/// One cell of the grid, named by its column and its row.
#[derive(Clone, Copy, Debug, PartialEq, Eq, Structural)]
pub struct Cell {
    pub col: u32,
    pub row: u32,
}

/// The cell that stands at place `i` of a row-major grid with `cols` columns.
pub open spec fn cell_at(i: int, cols: int) -> Cell
    recommends
        cols > 0,
        i >= 0,
{
    Cell { col: (i % cols) as u32, row: (i / cols) as u32 }
}

/// The whole grid as a sequence: `rows * cols` cells, row after row.
pub open spec fn grid_cells(rows: int, cols: int) -> Seq<Cell> {
    Seq::new((rows * cols) as nat, |i: int| cell_at(i, cols))
}

proof fn lemma_place(r: int, c: int, cols: int)
    requires
        0 <= r,
        0 <= c < cols,
    ensures
        (r * cols + c) / cols == r,
        (r * cols + c) % cols == c,
{
    vstd::arithmetic::div_mod::lemma_fundamental_div_mod_converse(r * cols + c, cols, r, c);
}

proof fn lemma_row_fits(r: int, rows: int, cols: int)
    requires
        0 <= r < rows,
        0 < cols,
    ensures
        r * cols + cols <= rows * cols,
        0 <= r * cols,
{
    assert(r * cols + cols == (r + 1) * cols) by (nonlinear_arith);
    assert((r + 1) * cols <= rows * cols) by (nonlinear_arith)
        requires
            r + 1 <= rows,
            0 < cols,
    ;
    assert(0 <= r * cols) by (nonlinear_arith)
        requires
            0 <= r,
            0 < cols,
    ;
}

/// Builds the grid: every `(col, row)` of `[0, cols) x [0, rows)`, once, row
/// after row.
pub fn build_grid(rows: u32, cols: u32) -> (cells: Vec<Cell>)
    requires
        rows > 0,
        cols > 0,
        rows * cols <= usize::MAX,
    ensures
        cells@ == grid_cells(rows as int, cols as int),
        cells@.len() == rows * cols,
{
    let mut cells: Vec<Cell> = Vec::new();
    let mut row: u32 = 0;
    while row < rows
        invariant
            cols > 0,
            row <= rows,
            rows * cols <= usize::MAX,
            cells@.len() == row * cols,
            forall|i: int| 0 <= i < cells@.len() ==> cells@[i] == cell_at(i, cols as int),
        decreases rows - row,
    {
        let mut col: u32 = 0;
        while col < cols
            invariant
                cols > 0,
                row < rows,
                col <= cols,
                rows * cols <= usize::MAX,
                cells@.len() == row * cols + col,
                forall|i: int| 0 <= i < cells@.len() ==> cells@[i] == cell_at(i, cols as int),
            decreases cols - col,
        {
            proof {
                lemma_place(row as int, col as int, cols as int);
                lemma_row_fits(row as int, rows as int, cols as int);
            }
            cells.push(Cell { col, row });
            col = col + 1;
        }
        proof {
            assert(row * cols + cols == (row + 1) * cols) by (nonlinear_arith);
        }
        row = row + 1;
    }
    proof {
        assert(cells@ =~= grid_cells(rows as int, cols as int));
    }
    cells
}

} // verus!
