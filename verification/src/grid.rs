//! The nine-by-nine grid and the units (rows, columns, blocks) it is read by.

use vstd::prelude::*;

verus! {

/// Side length of a grid, and the largest value a cell may hold.
pub const SUDOKU_SIZE: usize = 9;

/// Side length of one block; the blocks tile the grid three by three.
pub const GRID_SIZE: usize = 3;

/// Row `r` of `g`, left to right.
pub open spec fn row_of(g: [[u8; 9]; 9], r: int) -> Seq<u8> {
    Seq::new(9, |c: int| g[r][c])
}

/// Column `c` of `g`, top to bottom.
pub open spec fn column_of(g: [[u8; 9]; 9], c: int) -> Seq<u8> {
    Seq::new(9, |r: int| g[r][c])
}

/// The block in block-row `br` and block-column `bc` of `g`, read row by row.
pub open spec fn block_of(g: [[u8; 9]; 9], br: int, bc: int) -> Seq<u8> {
    Seq::new(9, |k: int| g[3 * br + k / 3][3 * bc + k % 3])
}

/// Cell `k` of a block lies this many rows below the grid's top, for a
/// block in block-row `br`.
pub open spec fn block_cell_row(br: int, k: int) -> int {
    3 * br + k / 3
}

/// Cell `k` of a block lies this many columns right of the grid's left
/// edge, for a block in block-column `bc`.
pub open spec fn block_cell_column(bc: int, k: int) -> int {
    3 * bc + k % 3
}

/// The blocks tile the grid without gap or overlap: every cell of the grid
/// is a cell of one block, at one place in it.
pub proof fn lemma_blocks_tile(g: [[u8; 9]; 9], i: int, j: int)
    requires
        0 <= i < 9,
        0 <= j < 9,
    ensures
        block_of(g, i / 3, j / 3)[3 * (i % 3) + j % 3] == g[i][j],
        forall|br: int, bc: int, k: int|
            0 <= br < 3 && 0 <= bc < 3 && 0 <= k < 9 && #[trigger] block_cell_row(br, k) == i
                && #[trigger] block_cell_column(bc, k) == j ==> br == i / 3 && bc == j / 3 && k
                == 3 * (i % 3) + j % 3,
{
}

/// Why rows of cells were not taken as a grid.
#[derive(Clone, Copy, Debug, PartialEq, Eq, Structural)]
pub enum GridError {
    /// There are not nine rows, or some row has not nine cells.
    WrongShape,
    /// The cell in this row and column holds a value above nine.
    ValueOutOfRange { row: usize, col: usize },
}

/// Nine rows of nine cells each.
pub open spec fn is_nine_by_nine(rows: Seq<Seq<u8>>) -> bool {
    rows.len() == 9 && forall|i: int| 0 <= i < 9 ==> (#[trigger] rows[i]).len() == 9
}

/// The cell at `(i, j)` comes before the cell at `(r, c)` when the rows are
/// read one after the other.
pub open spec fn comes_before(i: int, j: int, r: int, c: int) -> bool {
    i < r || (i == r && j < c)
}

/// The rows as a sequence of sequences, the form in which they arrive.
pub open spec fn rows_view(rows: Vec<Vec<u8>>) -> Seq<Seq<u8>> {
    Seq::new(rows@.len(), |i: int| rows@[i]@)
}

/// Builds a grid from rows of cells as they arrive from outside.
///
/// The rows are taken only if there are nine of nine cells each and no
/// cell is above nine; zero stands for a cell that is not filled in. Of
/// several cells above nine the first in reading order is reported.
pub fn grid_from_rows(rows: &Vec<Vec<u8>>) -> (res: Result<
    [[u8; SUDOKU_SIZE]; SUDOKU_SIZE],
    GridError,
>)
    ensures
        match res {
            Ok(g) => is_nine_by_nine(rows_view(*rows)) && forall|i: int, j: int|
                0 <= i < 9 && 0 <= j < 9 ==> g[i][j] == rows_view(*rows)[i][j] && g[i][j] <= 9,
            Err(GridError::WrongShape) => !is_nine_by_nine(rows_view(*rows)),
            Err(GridError::ValueOutOfRange { row, col }) => is_nine_by_nine(rows_view(*rows))
                && row < 9 && col < 9 && rows_view(*rows)[row as int][col as int] > 9
                && forall|i: int, j: int|
                    0 <= i < 9 && 0 <= j < 9 && comes_before(i, j, row as int, col as int)
                        ==> #[trigger] rows_view(*rows)[i][j] <= 9,
        },
{
    let ghost cells = rows_view(*rows);
    if rows.len() != SUDOKU_SIZE {
        return Err(GridError::WrongShape);
    }
    for i in 0..SUDOKU_SIZE
        invariant
            cells == rows_view(*rows),
            cells.len() == 9,
            forall|a: int| 0 <= a < i ==> (#[trigger] cells[a]).len() == 9,
    {
        if rows[i].len() != SUDOKU_SIZE {
            assert(cells[i as int].len() != 9);
            return Err(GridError::WrongShape);
        }
    }
    let mut grid = [[0u8; 9]; 9];
    for i in 0..SUDOKU_SIZE
        invariant
            cells == rows_view(*rows),
            is_nine_by_nine(cells),
            forall|a: int, b: int| 0 <= a < i && 0 <= b < 9 ==> #[trigger] cells[a][b] <= 9,
            forall|a: int, b: int|
                0 <= a < i && 0 <= b < 9 ==> #[trigger] grid[a][b] == cells[a][b],
    {
        let mut line = [0u8; 9];
        for j in 0..SUDOKU_SIZE
            invariant
                0 <= i < 9,
                cells == rows_view(*rows),
                is_nine_by_nine(cells),
                forall|a: int, b: int|
                    0 <= a < i && 0 <= b < 9 ==> #[trigger] cells[a][b] <= 9,
                forall|b: int| 0 <= b < j ==> cells[i as int][b] <= 9,
                forall|b: int| 0 <= b < j ==> line[b] == cells[i as int][b],
        {
            assert(cells[i as int].len() == 9);
            let value = rows[i][j];
            if value > SUDOKU_SIZE as u8 {
                return Err(GridError::ValueOutOfRange { row: i, col: j });
            }
            line[j] = value;
        }
        grid[i] = line;
    }
    Ok(grid)
}

} // verus!
