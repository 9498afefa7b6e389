//! The sun counter.

use vstd::prelude::*;

verus! {

/// Sun the player holds (set from the level's `initial_sun` when play starts).
#[derive(Clone, Copy, Debug, PartialEq, Eq, Structural)]
pub struct SunCount(pub u32);

} // verus!
