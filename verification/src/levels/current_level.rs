//! The level being played.

use vstd::prelude::*;

use super::data::LevelDef;

verus! {

/// The level chosen for play (present while playing).
#[derive(Debug)]
pub struct CurrentLevel {
    /// The level's data as read.
    pub inner: LevelDef,
}

} // verus!
