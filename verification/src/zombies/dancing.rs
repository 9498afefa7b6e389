//! The dancing king's phases.

use vstd::prelude::*;

use crate::float_bits::F32Bits;

verus! {

/// The dancing king's phase, in the order it runs them.
#[derive(Clone, Copy, Debug, PartialEq, Eq, Default, Structural)]
pub enum DancingKingPhase {
    /// Slides in (1.2 s per cell, about 2.5 cells); meeting a plant ends it early.
    #[default]
    Sliding,
    /// First summoning: one backup dancer in each of four rows.
    Summoning,
    /// Dance-and-move cycle; after each dance, counts its dancers.
    DancingMoving,
    /// Refill summoning: only the missing dancers.
    RefillSummoning,
}

/// The dancing king's state machine.
#[derive(Clone, Copy, Debug, PartialEq, Eq, Structural)]
pub struct DancingKing {
    pub phase: DancingKingPhase,
}

/// Cells left to slide (an `f32`); meeting a plant sets it to zero and
/// starts [`DancingKingPhase::Summoning`].
#[derive(Clone, Copy, Debug, PartialEq, Eq, Structural)]
pub struct DancingSlide {
    pub cells_remaining: F32Bits,
}

/// Backup dancers a summoning wants (the rows around the king).
pub const BACKUP_DANCER_SLOT_COUNT: u32 = 4;

} // verus!
