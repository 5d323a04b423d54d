use vstd::prelude::*;
use vstd::arithmetic::div_mod::lemma_fundamental_div_mod_converse;

verus! {

/// The size of the rendered image, in pixels.
#[derive(Clone, Copy, Debug, PartialEq, Eq, Structural)]
pub struct Screen {
    pub width: usize,
    pub height: usize,
}

/// Why a pixel grid cannot be rendered.
#[derive(Clone, Copy, Debug, PartialEq, Eq, Structural)]
pub enum GridError {
    /// Fewer than two columns: the horizontal angle step would divide by zero.
    TooFewColumns,
    /// Fewer than two rows: the vertical angle step would divide by zero.
    TooFewRows,
    /// The number of pixels does not fit in a `usize`.
    TooManyPixels,
}

/// What checking a `columns` by `rows` grid gives: the pixel count, or the
/// first reason, in the order columns, rows, size, that the grid is refused.
pub open spec fn grid_check(columns: nat, rows: nat) -> Result<nat, GridError> {
    if columns < 2 {
        Err(GridError::TooFewColumns)
    } else if rows < 2 {
        Err(GridError::TooFewRows)
    } else if columns * rows > usize::MAX {
        Err(GridError::TooManyPixels)
    } else {
        Ok(columns * rows)
    }
}

/// The grid cell `(row, column)` of the pixel at position `k` of a row-major
/// buffer with `columns` pixels per row.
pub open spec fn cell_of(columns: nat, k: int) -> (int, int) {
    (k / (columns as int), k % (columns as int))
}

impl Screen {
    /// The number of pixels of the screen, once the grid is known to be
    /// renderable: at least two columns and two rows.
    pub fn pixel_count(&self) -> (r: Result<usize, GridError>)
        ensures
            match r {
                Ok(n) => grid_check(self.width as nat, self.height as nat) == Ok::<nat, GridError>(n as nat),
                Err(e) => grid_check(self.width as nat, self.height as nat) == Err::<nat, GridError>(e),
            },
    {
        if self.width < 2 {
            Err(GridError::TooFewColumns)
        } else if self.height < 2 {
            Err(GridError::TooFewRows)
        } else {
            match self.width.checked_mul(self.height) {
                Some(n) => Ok(n),
                None => Err(GridError::TooManyPixels),
            }
        }
    }
}

/// The cells of a `columns` by `rows` grid in row-major order, as
/// `(row, column)` pairs: the order of the rays and of the pixel buffer.
pub fn pixel_grid(columns: usize, rows: usize) -> (r: Vec<(usize, usize)>)
    requires
        columns * rows <= usize::MAX,
    ensures
        r@.len() == columns * rows,
        forall|k: int|
            0 <= k < r@.len() ==> (#[trigger] r@[k].0 as int, r@[k].1 as int) == cell_of(
                columns as nat,
                k,
            ),
{
    let mut out: Vec<(usize, usize)> = Vec::new();
    let mut row: usize = 0;
    while row < rows
        invariant
            row <= rows,
            columns * rows <= usize::MAX,
            out@.len() == row * columns,
            forall|k: int|
                0 <= k < out@.len() ==> (#[trigger] out@[k].0 as int, out@[k].1 as int) == cell_of(
                    columns as nat,
                    k,
                ),
        decreases rows - row,
    {
        let mut column: usize = 0;
        while column < columns
            invariant
                row < rows,
                column <= columns,
                columns * rows <= usize::MAX,
                out@.len() == row * columns + column,
                forall|k: int|
                    0 <= k < out@.len() ==> (#[trigger] out@[k].0 as int, out@[k].1 as int)
                        == cell_of(columns as nat, k),
            decreases columns - column,
        {
            proof {
                lemma_fundamental_div_mod_converse(
                    out@.len() as int,
                    columns as int,
                    row as int,
                    column as int,
                );
                assert(row * columns + column < columns * rows) by (nonlinear_arith)
                    requires
                        row < rows,
                        column < columns,
                ;
            }
            out.push((row, column));
            column += 1;
        }
        proof {
            assert(row * columns + columns == (row + 1) * columns) by (nonlinear_arith);
        }
        row += 1;
    }
    proof {
        assert(rows * columns == columns * rows) by (nonlinear_arith);
    }
    out
}

/// Where the pixel of a given cell stands in a row-major buffer with
/// `columns` pixels per row: row-major position and grid cell agree both ways.
pub proof fn lemma_cell_position(columns: nat, rows: nat, row: nat, column: nat)
    requires
        row < rows,
        column < columns,
    ensures
        row * columns + column < columns * rows,
        cell_of(columns, (row * columns + column) as int) == (row as int, column as int),
{
    assert(row * columns + column < columns * rows) by (nonlinear_arith)
        requires
            row < rows,
            column < columns,
    ;
    lemma_fundamental_div_mod_converse(
        (row * columns + column) as int,
        columns as int,
        row as int,
        column as int,
    );
}

} // verus!
