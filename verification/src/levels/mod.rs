//! Levels: data, balance overrides, loading checks, progress and wave spawning.

pub mod current_level;
pub mod data;
pub mod level_balance;
pub mod load;
pub mod progress;
pub mod wave_spawn;

pub use current_level::CurrentLevel;
pub use data::LevelDef;
pub use level_balance::validate_level_balance_config;
pub use load::{level_manifest_path, LoadLevelError};
pub use progress::AdventureProgress;
