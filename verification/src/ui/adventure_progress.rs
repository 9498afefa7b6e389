//! The main menu's adventure progress: the current level id, read from the
//! game's bundled save data.

use vstd::prelude::*;

pub use crate::levels::progress::is_valid_level_id;
use crate::levels::load::manifest_path;
use crate::levels::progress::valid_level_id;

verus! {

/// The bundled save data.
#[derive(Clone, Debug, PartialEq, Eq)]
pub struct SaveFile {
    pub current_level: String,
}

/// The current adventure level's id (a file name without `.ron`, such as `level_1_1`).
#[derive(Clone, Debug, PartialEq, Eq)]
pub struct AdventureProgress {
    /// The level: `assets/data/levels/{current_level}.ron`.
    pub current_level: String,
}

impl AdventureProgress {
    /// The level played when there is no usable save.
    pub const DEFAULT_LEVEL: &'static str = "level_1_1";

    /// The progress for what reading the save gave: its level when the id is
    /// valid, else the default level.
    pub fn from_loaded_save(read: Result<SaveFile, String>) -> (r: AdventureProgress)
        ensures
            match read {
                Ok(save) => if valid_level_id(save.current_level@) {
                    r.current_level == save.current_level
                } else {
                    r.current_level@ == "level_1_1"@
                },
                Err(_) => r.current_level@ == "level_1_1"@,
            },
            valid_level_id(r.current_level@),
    {
        match read {
            Ok(save) => if is_valid_level_id(save.current_level.as_str()) {
                AdventureProgress { current_level: save.current_level }
            } else {
                Self::default_progress()
            },
            Err(_) => Self::default_progress(),
        }
    }

    /// The default level.
    pub fn default_progress() -> (r: AdventureProgress)
        ensures
            r.current_level@ == "level_1_1"@,
            valid_level_id(r.current_level@),
    {
        proof {
            reveal_strlit("level_1_1");
        }
        AdventureProgress { current_level: String::from_str("level_1_1") }
    }

    /// The current level's data file, relative to the project root.
    pub fn level_manifest_path(&self) -> (r: String)
        ensures
            r@ == manifest_path(self.current_level@),
    {
        crate::levels::load::level_manifest_path(self.current_level.as_str())
    }
}

impl Default for AdventureProgress {
    fn default() -> (r: AdventureProgress)
        ensures
            r.current_level@ == "level_1_1"@,
    {
        Self::default_progress()
    }
}

} // verus!
