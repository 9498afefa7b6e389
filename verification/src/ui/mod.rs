//! Menu-side rules: the menu's adventure progress and its actions.

pub mod adventure_progress;
pub mod main_menu;

pub use adventure_progress::AdventureProgress;
