//! The constraint validator: does a solution complete its puzzle?

use crate::grid::{block_of, column_of, row_of, GRID_SIZE, SUDOKU_SIZE};
use crate::units::{
    is_complete_unit, lemma_complete_is_flawless, lemma_scan_defect, lemma_scan_done,
    lemma_scan_step, scanned,
};
use vstd::prelude::*;

verus! {

/// The solution keeps every clue: wherever the puzzle holds a value other
/// than zero, the solution holds the same value.
pub open spec fn keeps_clues(board: [[u8; 9]; 9], solution: [[u8; 9]; 9]) -> bool {
    forall|i: int, j: int|
        0 <= i < 9 && 0 <= j < 9 && board[i][j] != 0 ==> board[i][j] == solution[i][j]
}

/// Every row, every column and every one of the nine blocks of the grid is
/// complete.
pub open spec fn is_solved(solution: [[u8; 9]; 9]) -> bool {
    &&& forall|r: int| 0 <= r < 9 ==> is_complete_unit(#[trigger] row_of(solution, r))
    &&& forall|c: int| 0 <= c < 9 ==> is_complete_unit(#[trigger] column_of(solution, c))
    &&& forall|br: int, bc: int|
        0 <= br < 3 && 0 <= bc < 3 ==> is_complete_unit(#[trigger] block_of(solution, br, bc))
}

/// The solution is a valid completion of the puzzle: it keeps the clues and
/// is a solved grid.
pub open spec fn completes(board: [[u8; 9]; 9], solution: [[u8; 9]; 9]) -> bool {
    keeps_clues(board, solution) && is_solved(solution)
}

/// Decides whether `solution` is a valid completion of the puzzle `board`.
///
/// The clues are checked first, then the solution alone is checked row by
/// row, column by column and block by block.
pub fn verify_sudoku(
    board: [[u8; SUDOKU_SIZE]; SUDOKU_SIZE],
    solution: [[u8; SUDOKU_SIZE]; SUDOKU_SIZE],
) -> (valid: bool)
    ensures
        valid == completes(board, solution),
{
    if !check_board_solution_consistency(board, solution) {
        return false;
    }
    if !is_valid_solution(solution) {
        return false;
    }
    true
}

/// Tells whether the solution leaves the puzzle's clues as they are.
///
/// Clues are compared by equality alone: a clue above nine is no error
/// here, it merely has to be matched.
pub fn check_board_solution_consistency(
    board: [[u8; SUDOKU_SIZE]; SUDOKU_SIZE],
    solution: [[u8; SUDOKU_SIZE]; SUDOKU_SIZE],
) -> (ok: bool)
    ensures
        ok == keeps_clues(board, solution),
{
    for i in 0..SUDOKU_SIZE
        invariant
            forall|a: int, b: int|
                0 <= a < i && 0 <= b < 9 && board[a][b] != 0 ==> board[a][b] == solution[a][b],
    {
        for j in 0..SUDOKU_SIZE
            invariant
                0 <= i < 9,
                forall|a: int, b: int|
                    0 <= a < i && 0 <= b < 9 && board[a][b] != 0 ==> board[a][b]
                        == solution[a][b],
                forall|b: int|
                    0 <= b < j && board[i as int][b] != 0 ==> board[i as int][b]
                        == solution[i as int][b],
        {
            if board[i][j] != 0 && board[i][j] != solution[i][j] {
                return false;
            }
        }
    }
    true
}

/// Tells whether the grid is solved: each row, each column and each block
/// holds the values one to nine, each exactly once.
pub fn is_valid_solution(solution: [[u8; SUDOKU_SIZE]; SUDOKU_SIZE]) -> (ok: bool)
    ensures
        ok == is_solved(solution),
{
    for r in 0..SUDOKU_SIZE
        invariant
            forall|a: int| 0 <= a < r ==> is_complete_unit(#[trigger] row_of(solution, a)),
    {
        let ghost unit = row_of(solution, r as int);
        let mut used = [false; 10];
        for c in 0..SUDOKU_SIZE
            invariant
                0 <= r < 9,
                unit == row_of(solution, r as int),
                scanned(unit, c as int, used),
        {
            let num = solution[r][c];
            if num == 0 || num > 9 || used[num as usize] {
                proof {
                    lemma_scan_defect(unit, c as int, used);
                }
                return false;
            }
            let ghost before = used;
            used[num as usize] = true;
            proof {
                lemma_scan_step(unit, c as int, before, used);
            }
        }
        proof {
            lemma_scan_done(unit, used);
        }
    }

    for c in 0..SUDOKU_SIZE
        invariant
            forall|a: int| 0 <= a < 9 ==> is_complete_unit(#[trigger] row_of(solution, a)),
            forall|b: int| 0 <= b < c ==> is_complete_unit(#[trigger] column_of(solution, b)),
    {
        let ghost unit = column_of(solution, c as int);
        let mut used = [false; 10];
        for r in 0..SUDOKU_SIZE
            invariant
                0 <= c < 9,
                unit == column_of(solution, c as int),
                scanned(unit, r as int, used),
        {
            let num = solution[r][c];
            if num == 0 || num > 9 || used[num as usize] {
                proof {
                    lemma_scan_defect(unit, r as int, used);
                }
                return false;
            }
            let ghost before = used;
            used[num as usize] = true;
            proof {
                lemma_scan_step(unit, r as int, before, used);
            }
        }
        proof {
            lemma_scan_done(unit, used);
        }
    }

    for box_row in 0..GRID_SIZE
        invariant
            forall|a: int| 0 <= a < 9 ==> is_complete_unit(#[trigger] row_of(solution, a)),
            forall|b: int| 0 <= b < 9 ==> is_complete_unit(#[trigger] column_of(solution, b)),
            forall|br: int, bc: int|
                0 <= br < box_row && 0 <= bc < 3 ==> is_complete_unit(
                    #[trigger] block_of(solution, br, bc),
                ),
    {
        for box_col in 0..GRID_SIZE
            invariant
                0 <= box_row < 3,
                forall|br: int, bc: int|
                    0 <= br < box_row && 0 <= bc < 3 ==> is_complete_unit(
                        #[trigger] block_of(solution, br, bc),
                    ),
                forall|bc: int|
                    0 <= bc < box_col ==> is_complete_unit(
                        #[trigger] block_of(solution, box_row as int, bc),
                    ),
        {
            let ghost unit = block_of(solution, box_row as int, box_col as int);
            let mut used = [false; 10];
            for r in 0..GRID_SIZE
                invariant
                    0 <= box_row < 3,
                    0 <= box_col < 3,
                    unit == block_of(solution, box_row as int, box_col as int),
                    scanned(unit, 3 * r, used),
            {
                for c in 0..GRID_SIZE
                    invariant
                        0 <= box_row < 3,
                        0 <= box_col < 3,
                        0 <= r < 3,
                        unit == block_of(solution, box_row as int, box_col as int),
                        scanned(unit, 3 * r + c, used),
                {
                    let num = solution[box_row * GRID_SIZE + r][box_col * GRID_SIZE + c];
                    if num == 0 || num > 9 || used[num as usize] {
                        proof {
                            lemma_scan_defect(unit, 3 * r + c, used);
                        }
                        return false;
                    }
                    let ghost before = used;
                    used[num as usize] = true;
                    proof {
                        lemma_scan_step(unit, 3 * r + c, before, used);
                    }
                }
            }
            proof {
                lemma_scan_done(unit, used);
            }
        }
    }

    true
}

/// A solution that changes a clue is rejected, however good a grid it is
/// in itself.
pub proof fn lemma_changed_clue_rejects(
    board: [[u8; 9]; 9],
    solution: [[u8; 9]; 9],
    i: int,
    j: int,
)
    requires
        0 <= i < 9,
        0 <= j < 9,
        board[i][j] != 0,
        board[i][j] != solution[i][j],
    ensures
        !keeps_clues(board, solution),
        !completes(board, solution),
{
}

/// A puzzle without clues is completed by exactly the solved grids.
pub proof fn lemma_empty_puzzle_takes_any_solved(board: [[u8; 9]; 9], solution: [[u8; 9]; 9])
    requires
        forall|i: int, j: int| 0 <= i < 9 && 0 <= j < 9 ==> board[i][j] == 0,
    ensures
        keeps_clues(board, solution),
        completes(board, solution) == is_solved(solution),
{
}

/// A solution with a cell that is zero or above nine is rejected, whatever
/// the puzzle.
pub proof fn lemma_cell_out_of_range_rejects(
    board: [[u8; 9]; 9],
    solution: [[u8; 9]; 9],
    i: int,
    j: int,
)
    requires
        0 <= i < 9,
        0 <= j < 9,
        solution[i][j] == 0 || solution[i][j] > 9,
    ensures
        !is_solved(solution),
        !completes(board, solution),
{
    let unit = row_of(solution, i);
    assert(unit[j] == solution[i][j]);
    if is_complete_unit(unit) {
        lemma_complete_is_flawless(unit);
    }
}

/// A solution that holds one value in two cells of the same row, column or
/// block is rejected, whatever the puzzle.
pub proof fn lemma_repeat_rejects(
    board: [[u8; 9]; 9],
    solution: [[u8; 9]; 9],
    i1: int,
    j1: int,
    i2: int,
    j2: int,
)
    requires
        0 <= i1 < 9 && 0 <= j1 < 9,
        0 <= i2 < 9 && 0 <= j2 < 9,
        i1 != i2 || j1 != j2,
        solution[i1][j1] == solution[i2][j2],
        i1 == i2 || j1 == j2 || (i1 / 3 == i2 / 3 && j1 / 3 == j2 / 3),
    ensures
        !is_solved(solution),
        !completes(board, solution),
{
    if i1 == i2 {
        let unit = row_of(solution, i1);
        assert(unit[j1] == unit[j2]);
        if is_complete_unit(unit) {
            lemma_complete_is_flawless(unit);
        }
    } else if j1 == j2 {
        let unit = column_of(solution, j1);
        assert(unit[i1] == unit[i2]);
        if is_complete_unit(unit) {
            lemma_complete_is_flawless(unit);
        }
    } else {
        let unit = block_of(solution, i1 / 3, j1 / 3);
        let k1 = 3 * (i1 % 3) + j1 % 3;
        let k2 = 3 * (i2 % 3) + j2 % 3;
        assert(unit[k1] == solution[i1][j1]);
        assert(unit[k2] == solution[i2][j2]);
        assert(k1 != k2);
        if is_complete_unit(unit) {
            lemma_complete_is_flawless(unit);
        }
    }
}

} // verus!
