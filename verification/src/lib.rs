//! Checking a claimed Sudoku solution against its puzzle, and the decisions
//! around turning a positive check into a proof that others can verify.

pub mod codec;
pub mod fibonacci;
pub mod fixture;
pub mod grid;
pub mod orchestrator;
pub mod response;
pub mod text;
pub mod units;
pub mod validator;

pub use codec::{decode, encode, PublicValuesStruct};
pub use fibonacci::fibonacci;
pub use grid::{grid_from_rows, GridError, GRID_SIZE, SUDOKU_SIZE};
pub use validator::{check_board_solution_consistency, is_valid_solution, verify_sudoku};
