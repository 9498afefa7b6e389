//! Armor kinds and their per-kind numbers (the armor catalog's entries).

pub mod types;

pub use types::ArmorType;
pub mod stats;

pub use stats::{validate_armor_archetype, ArmorArchetypeOverride, ArmorArchetypeStats, ArmorTier};
pub mod catalog;

pub use catalog::ArmorsCatalog;
