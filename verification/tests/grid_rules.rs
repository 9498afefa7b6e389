use pvz_rust::float_bits::F32Bits;
use pvz_rust::grid::config::{lawn_cell_color, GridConfigError, Rgb};
use pvz_rust::grid::coords::cell_to_grid_pos;
use pvz_rust::grid::{GridConfig, GridPos};

fn bits(v: f32) -> F32Bits {
    F32Bits(v.to_bits())
}

fn rgb(r: f32, g: f32, b: f32) -> Rgb {
    (bits(r), bits(g), bits(b))
}

fn grid() -> GridConfig {
    GridConfig {
        cols: 11,
        rows: 5,
        cell_width: bits(80.0),
        cell_height: bits(100.0),
        origin: (bits(-440.0), bits(-300.0)),
        row_colors: vec![rgb(0.3, 0.6, 0.2), rgb(0.35, 0.65, 0.25)],
        lawnmower_column_color: rgb(0.2, 0.2, 0.2),
        zombie_spawn_column_color: rgb(0.1, 0.1, 0.1),
        grid_line_color: rgb(0.0, 0.0, 0.0),
        grid_line_width: bits(1.0),
        background_fallback_color: rgb(0.4, 0.5, 0.3),
    }
}

#[test]
fn grid_validation_in_order() {
    assert_eq!(grid().validate(true), Ok(()));
    assert_eq!(grid().validate(false), Err(GridConfigError::WrongAspect));
    let mut g = grid();
    g.cols = 10;
    g.rows = 0;
    assert_eq!(g.validate(true), Err(GridConfigError::WrongColumnCount));
    let mut g = grid();
    g.rows = 0;
    assert_eq!(g.validate(true), Err(GridConfigError::NoRows));
    let mut g = grid();
    g.cell_width = bits(-80.0);
    assert_eq!(g.validate(true), Err(GridConfigError::NonPositiveCellWidth));
    let mut g = grid();
    g.cell_height = bits(0.0);
    assert_eq!(g.validate(true), Err(GridConfigError::NonPositiveCellHeight));
    let mut g = grid();
    g.row_colors.pop();
    assert_eq!(g.validate(true), Err(GridConfigError::TooFewRowColors));
    let mut g = grid();
    g.grid_line_width = bits(f32::NAN);
    assert_eq!(g.validate(true), Err(GridConfigError::NonPositiveLineWidth));
}

#[test]
fn column_roles() {
    let g = grid();
    assert!(g.col_in_bounds(10));
    assert!(!g.col_in_bounds(11));
    assert!(g.row_in_bounds(4));
    assert!(!g.row_in_bounds(5));
    assert!(!g.col_is_plantable(GridConfig::COL_LAWNMOWER));
    assert!(g.col_is_plantable(GridConfig::COL_PLANT_START));
    assert!(g.col_is_plantable(GridConfig::COL_PLANT_END));
    assert!(!g.col_is_plantable(GridConfig::COL_ZOMBIE_SPAWN));
    assert!(GridConfig::col_is_in_play(0));
    assert!(GridConfig::col_is_in_play(9));
    assert!(!GridConfig::col_is_in_play(10));
}

#[test]
fn grid_pos_only_on_the_lawn() {
    let g = grid();
    assert_eq!(GridPos::new(&g, 3, 2), Some(GridPos { col: 3, row: 2 }));
    assert_eq!(GridPos::new(&g, 11, 2), None);
    assert_eq!(GridPos::new(&g, 3, 5), None);
}

#[test]
fn cell_indices_to_grid_pos() {
    let g = grid();
    assert_eq!(cell_to_grid_pos(&g, 0, 0), Some(GridPos { col: 0, row: 0 }));
    assert_eq!(cell_to_grid_pos(&g, 10, 4), Some(GridPos { col: 10, row: 4 }));
    assert_eq!(cell_to_grid_pos(&g, -1, 0), None);
    assert_eq!(cell_to_grid_pos(&g, 0, -1), None);
    assert_eq!(cell_to_grid_pos(&g, 11, 0), None);
    assert_eq!(cell_to_grid_pos(&g, 0, 5), None);
    // the lookup converts to u8, so 256 and 258 land on columns 0 and 2
    assert_eq!(cell_to_grid_pos(&g, 256, 1), Some(GridPos { col: 0, row: 1 }));
    assert_eq!(cell_to_grid_pos(&g, 258, 257), Some(GridPos { col: 2, row: 1 }));
}

#[test]
fn lawn_cell_colors() {
    let g = grid();
    assert_eq!(lawn_cell_color(&g, 0, 3), g.lawnmower_column_color);
    assert_eq!(lawn_cell_color(&g, 10, 3), g.zombie_spawn_column_color);
    assert_eq!(lawn_cell_color(&g, 4, 0), g.row_colors[0]);
    assert_eq!(lawn_cell_color(&g, 4, 1), g.row_colors[1]);
    assert_eq!(lawn_cell_color(&g, 9, 4), g.row_colors[0]);
}
