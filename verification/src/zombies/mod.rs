//! Zombie kinds, their per-kind numbers, body hp stages and the dancing king.

pub mod catalog;
pub mod dancing;
pub mod hp;
pub mod stats;
pub mod types;

pub use catalog::ZombiesCatalog;
pub use stats::{validate_zombie_archetype, ZombieArchetypeStats};
pub use types::ZombieType;
