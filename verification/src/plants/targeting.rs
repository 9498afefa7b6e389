//! How a plant picks its targets.

use vstd::prelude::*;

use crate::float_bits::F32Bits;

verus! {

/// How a plant picks its targets; plants without it never target.
#[derive(Clone, Copy, Debug, PartialEq, Eq, Structural)]
pub enum PlantTargeting {
    /// The whole lane ahead (shooters).
    LaneForward,
    /// Within this many cells ahead (an `f32`).
    ForwardRange(F32Bits),
    /// Within this many cells either way along its row (an `f32`).
    RowRadius(F32Bits),
    /// The 3x3 cells around it.
    Area3x3,
    /// The whole screen.
    Global,
}

} // verus!
