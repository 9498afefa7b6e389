//! The in-play seed bar and planting (card selection before play is separate).

pub mod planting;
pub mod slots;

pub use slots::{start_cooldown_for_plant, SeedShop, SelectedSeed};
