//! Game rules of a lawn-defence game: data catalogs for plants, zombies and
//! armor, per-level balance overrides, the point-budget wave spawner, zombie
//! body-hp stages, the lawn grid, the seed shop and the adventure progress.
//!
//! Floating-point configuration values are carried by their IEEE-754 bit
//! patterns (see [`float_bits`]); every decision the rules make on them is a
//! comparison stated over those bit patterns.

pub mod float_bits;
pub mod text;
pub mod zombies;
pub mod plants;
pub mod armors;
pub mod entries;
pub mod levels;
pub mod game_config;
pub mod grid;
pub mod states;
pub mod sun;
pub mod card_select;
pub mod shop;
pub mod save;
pub mod loading;
pub mod ui;
