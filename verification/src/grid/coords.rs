//! Grid cells.

use vstd::prelude::*;

use super::config::GridConfig;

verus! {

/// A lawn cell: column `0..cols`, row `0..rows`.
#[derive(Clone, Copy, Debug, PartialEq, Eq, Hash, Structural)]
pub struct GridPos {
    pub col: u8,
    pub row: u8,
}

impl GridPos {
    /// The cell `(col, row)` if it is on the lawn.
    pub fn new(config: &GridConfig, col: u8, row: u8) -> (r: Option<GridPos>)
        ensures
            r == if col < config.cols && row < config.rows {
                Some(GridPos { col, row })
            } else {
                None
            },
    {
        if config.col_in_bounds(col) && config.row_in_bounds(row) {
            Some(GridPos { col, row })
        } else {
            None
        }
    }
}

/// The cell of a world point, given the point's cell indices counted from
/// the grid origin (`floor(dx / cell_width)`, `floor(dy / cell_height)`, as
/// `i32`): negative indices are off the lawn; others are taken modulo 256
/// (the conversion to `u8` that the lookup makes) and must be on the lawn.
pub fn cell_to_grid_pos(config: &GridConfig, col: i32, row: i32) -> (r: Option<GridPos>)
    ensures
        r == if col < 0 || row < 0 {
            None
        } else if (col % 256) < config.cols && (row % 256) < config.rows {
            Some(GridPos { col: (col % 256) as u8, row: (row % 256) as u8 })
        } else {
            None
        },
{
    if col < 0 || row < 0 {
        return None;
    }
    GridPos::new(config, (col % 256) as u8, (row % 256) as u8)
}

} // verus!
