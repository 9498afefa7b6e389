//! The lawn grid's layout (`grid.ron`) and its check.

use vstd::prelude::*;

use crate::float_bits::F32Bits;

verus! {

/// An RGB color of three `f32` channels.
pub type Rgb = (F32Bits, F32Bits, F32Bits);

/// The lawn grid's layout.  Column 0 holds the lawn mowers, columns 1..=9
/// are plantable, column 10 is the off-screen zombie spawn column.  Lengths
/// and colors are `f32` values.
#[derive(Debug, PartialEq)]
pub struct GridConfig {
    /// Number of columns (zombies walk from right to left); must be 11.
    pub cols: u8,
    /// Number of rows.
    pub rows: u8,
    pub cell_width: F32Bits,
    /// Cell height; width to height is 4:5.
    pub cell_height: F32Bits,
    /// World position of the grid's bottom-left corner.
    pub origin: (F32Bits, F32Bits),
    /// Alternating row colors of the plantable columns (at least two).
    pub row_colors: Vec<Rgb>,
    pub lawnmower_column_color: Rgb,
    pub zombie_spawn_column_color: Rgb,
    pub grid_line_color: Rgb,
    pub grid_line_width: F32Bits,
    /// Lawn color while the level background is not loaded.
    pub background_fallback_color: Rgb,
}

/// What is wrong with a grid layout.
#[derive(Clone, Copy, Debug, PartialEq, Eq, Structural)]
pub enum GridConfigError {
    /// `cols` is not 11.
    WrongColumnCount,
    /// `rows` is 0.
    NoRows,
    /// Not `cell_width > 0`.
    NonPositiveCellWidth,
    /// Not `cell_height > 0`.
    NonPositiveCellHeight,
    /// The cell's width to height is not 4:5.
    WrongAspect,
    /// Fewer than two row colors.
    TooFewRowColors,
    /// Not `grid_line_width > 0`.
    NonPositiveLineWidth,
}

/// The first problem of a grid layout, checks taken in order;
/// `aspect_matches` is the outcome of the 4:5 aspect check.
pub open spec fn grid_config_problem(c: GridConfig, aspect_matches: bool) -> Option<GridConfigError> {
    if c.cols != 11 {
        Some(GridConfigError::WrongColumnCount)
    } else if c.rows == 0 {
        Some(GridConfigError::NoRows)
    } else if !F32Bits(0).ieee_lt(c.cell_width) {
        Some(GridConfigError::NonPositiveCellWidth)
    } else if !F32Bits(0).ieee_lt(c.cell_height) {
        Some(GridConfigError::NonPositiveCellHeight)
    } else if !aspect_matches {
        Some(GridConfigError::WrongAspect)
    } else if c.row_colors@.len() < 2 {
        Some(GridConfigError::TooFewRowColors)
    } else if !F32Bits(0).ieee_lt(c.grid_line_width) {
        Some(GridConfigError::NonPositiveLineWidth)
    } else {
        None
    }
}

impl GridConfig {
    /// The lawn mower column.
    pub const COL_LAWNMOWER: u8 = 0;
    /// First (leftmost) plantable column.
    pub const COL_PLANT_START: u8 = 1;
    /// Last (rightmost) plantable column; a zombie entering it can be targeted.
    pub const COL_PLANT_END: u8 = 9;
    /// The off-screen zombie spawn column (no planting, no targeting).
    pub const COL_ZOMBIE_SPAWN: u8 = 10;

    /// Checks the layout: 11 columns, some rows, positive cell sizes, a 4:5
    /// cell (`aspect_matches`, which the caller computes as
    /// `|cell_width / cell_height - 0.8| < 0.001` in `f32`), at least two row
    /// colors and a positive line width.
    pub fn validate(&self, aspect_matches: bool) -> (r: Result<(), GridConfigError>)
        ensures
            r == match grid_config_problem(*self, aspect_matches) {
                Some(e) => Err(e),
                None => Ok(()),
            },
    {
        if self.cols != 11 {
            return Err(GridConfigError::WrongColumnCount);
        }
        if self.rows == 0 {
            return Err(GridConfigError::NoRows);
        }
        if !self.cell_width.greater_than(&F32Bits::zero()) {
            return Err(GridConfigError::NonPositiveCellWidth);
        }
        if !self.cell_height.greater_than(&F32Bits::zero()) {
            return Err(GridConfigError::NonPositiveCellHeight);
        }
        if !aspect_matches {
            return Err(GridConfigError::WrongAspect);
        }
        if self.row_colors.len() < 2 {
            return Err(GridConfigError::TooFewRowColors);
        }
        if !self.grid_line_width.greater_than(&F32Bits::zero()) {
            return Err(GridConfigError::NonPositiveLineWidth);
        }
        Ok(())
    }

    /// The layout check for a layout that passes it: a bad layout stops the
    /// game, so it is no input of this function (see [`Self::validate`] for
    /// the check that reports it).
    pub fn require_valid(&self, aspect_matches: bool)
        requires
            grid_config_problem(*self, aspect_matches) is None,
    {
        let checked = self.validate(aspect_matches);
        assert(checked is Ok);
    }

    /// The column is on the lawn.
    pub fn col_in_bounds(&self, col: u8) -> (r: bool)
        ensures
            r == (col < self.cols),
    {
        col < self.cols
    }

    /// The row is on the lawn.
    pub fn row_in_bounds(&self, row: u8) -> (r: bool)
        ensures
            r == (row < self.rows),
    {
        row < self.rows
    }

    /// The column is plantable (columns 1..=9).
    pub fn col_is_plantable(&self, col: u8) -> (r: bool)
        ensures
            r == (1 <= col && col <= 9),
    {
        col >= Self::COL_PLANT_START && col <= Self::COL_PLANT_END
    }

    /// A zombie in this column is in play (it can be targeted): columns 0..=9.
    pub fn col_is_in_play(col: u8) -> (r: bool)
        ensures
            r == (col <= 9),
    {
        col <= Self::COL_PLANT_END
    }
}

/// The color of lawn cell `(col, row)`: the mower column's, the spawn
/// column's, or the row's alternating color.
pub open spec fn cell_color(c: GridConfig, col: u8, row: u8) -> Rgb {
    if col == 0 {
        c.lawnmower_column_color
    } else if col == 10 {
        c.zombie_spawn_column_color
    } else {
        c.row_colors@[row as int % c.row_colors@.len() as int]
    }
}

/// The color of lawn cell `(col, row)` (see [`cell_color`]).
pub fn lawn_cell_color(config: &GridConfig, col: u8, row: u8) -> (r: Rgb)
    requires
        config.row_colors@.len() > 0,
    ensures
        r == cell_color(*config, col, row),
{
    if col == GridConfig::COL_LAWNMOWER {
        config.lawnmower_column_color
    } else if col == GridConfig::COL_ZOMBIE_SPAWN {
        config.zombie_spawn_column_color
    } else {
        let n = config.row_colors.len();
        config.row_colors[(row as usize) % n]
    }
}

} // verus!
