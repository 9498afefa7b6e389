//! The lawn grid: layout and cells.

pub mod config;
pub mod coords;

pub use config::GridConfig;
pub use coords::GridPos;
