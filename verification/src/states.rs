//! The top-level game states and the update-stage sets.

use vstd::prelude::*;

verus! {

/// The top-level game state machine.
#[derive(Clone, Copy, Debug, PartialEq, Eq, Hash, Default, Structural)]
pub enum GameState {
    #[default]
    Loading,
    MainMenu,
    CardSelect,
    Playing,
    Paused,
    Victory,
    Defeat,
}

/// Ordering sets of the per-frame update stage.
#[derive(Clone, Copy, Debug, PartialEq, Eq, Hash, Structural)]
pub enum GameSet {
    Input,
    Logic,
    Spawn,
    Render,
}

} // verus!
