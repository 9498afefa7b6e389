//! Plant kinds and their per-kind numbers (the plant catalog's entries).

pub mod card_color;
pub mod catalog;
pub mod stats;
pub mod targeting;
pub mod traits;
pub mod types;

pub use catalog::PlantsCatalog;
pub use stats::{validate_plant_archetype, PlantArchetypeOverride, PlantArchetypeStats};
pub use targeting::PlantTargeting;
pub use traits::PlantTrait;
pub use types::PlantType;
