//! The two display patterns of the alert monitor.
//!
//! The device shows a fixed 5x5 grid of brightness levels (0 through 9) on
//! its LED matrix: a single centered dot while stationary, an exclamation
//! point while falling.

use vstd::prelude::*;

verus! {

/// The pattern selected for the LED matrix.
#[derive(Clone, Copy, PartialEq, Eq, Structural, Debug)]
pub enum Pattern {
    /// A single lit dot in the center of the grid.
    CenterDot,
    /// An exclamation point: a vertical bar with a dot below it.
    Exclamation,
}

/// Brightness (0 through 9) of the pixel at `row`, `col` of a pattern's
/// 5x5 grid.
pub open spec fn brightness_spec(p: Pattern, row: int, col: int) -> u8 {
    match p {
        Pattern::CenterDot => if row == 2 && col == 2 {
            9u8
        } else {
            0u8
        },
        Pattern::Exclamation => if col == 2 && (row == 0 || row == 1 || row == 2 || row == 4) {
            9u8
        } else {
            0u8
        },
    }
}

/// Brightness of one pixel of a pattern's 5x5 grid.
pub fn brightness(p: Pattern, row: usize, col: usize) -> (b: u8)
    requires
        row < 5,
        col < 5,
    ensures
        b == brightness_spec(p, row as int, col as int),
{
    match p {
        Pattern::CenterDot => {
            if row == 2 && col == 2 {
                9
            } else {
                0
            }
        },
        Pattern::Exclamation => {
            if col == 2 && (row == 0 || row == 1 || row == 2 || row == 4) {
                9
            } else {
                0
            }
        },
    }
}

/// The full 5x5 brightness grid of a pattern, row by row.
pub fn pattern_grid(p: Pattern) -> (g: [[u8; 5]; 5])
    ensures
        forall|r: int, c: int|
            0 <= r < 5 && 0 <= c < 5 ==> #[trigger] g@[r]@[c] == brightness_spec(p, r, c),
{
    match p {
        Pattern::CenterDot => [
            [0, 0, 0, 0, 0],
            [0, 0, 0, 0, 0],
            [0, 0, 9, 0, 0],
            [0, 0, 0, 0, 0],
            [0, 0, 0, 0, 0],
        ],
        Pattern::Exclamation => [
            [0, 0, 9, 0, 0],
            [0, 0, 9, 0, 0],
            [0, 0, 9, 0, 0],
            [0, 0, 0, 0, 0],
            [0, 0, 9, 0, 0],
        ],
    }
}

} // verus!
