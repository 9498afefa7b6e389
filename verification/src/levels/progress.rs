//! Adventure progress: the current level, the number of seed slots and the
//! unlocked plants, read from the player's save (kept apart from the
//! read-only game data).

use vstd::prelude::*;

use crate::plants::types::{is_plant_key, lemma_plant_key_injective, plant_key};
use crate::plants::PlantType;

verus! {

/// The player's save file.
#[derive(Clone, Debug, PartialEq, Eq)]
pub struct SaveFile {
    pub current_level: String,
    /// Defaults to [`default_slot_count`] when the file omits it.
    pub slot_count: u32,
    /// Defaults to [`default_unlocked_plants_raw`] when the file omits it.
    pub unlocked_plants: Vec<String>,
}

/// The current adventure progress.
#[derive(Clone, Debug, PartialEq, Eq)]
pub struct AdventureProgress {
    /// The level being played: `assets/data/levels/{current_level}.ron`.
    pub current_level: String,
    /// Seed slots for card selection and play (6 at first).
    pub slot_count: u32,
    /// Plants the player has unlocked.
    pub unlocked_plants: Vec<PlantType>,
}

/// A character a level id may hold: an ASCII letter or digit, or `_`.
pub open spec fn level_id_char(c: char) -> bool {
    ('0' <= c && c <= '9') || ('A' <= c && c <= 'Z') || ('a' <= c && c <= 'z') || c == '_'
}

/// A level id: non-empty, of ASCII letters, digits and `_` only (so it can
/// not leave the levels directory).
pub open spec fn valid_level_id(id: Seq<char>) -> bool {
    id.len() > 0 && forall|i: int| 0 <= i < id.len() ==> level_id_char(#[trigger] id[i])
}

/// The plant kind a key names, if any.
pub open spec fn plant_for_key(key: Seq<char>) -> Option<PlantType> {
    if is_plant_key(key) {
        Some(choose|ty: PlantType| plant_key(ty) == key)
    } else {
        None
    }
}

/// The kinds named by the known keys of `raw`, in order.
pub open spec fn known_plants(raw: Seq<String>) -> Seq<PlantType>
    decreases raw.len(),
{
    if raw.len() == 0 {
        seq![]
    } else {
        let rest = known_plants(raw.drop_last());
        match plant_for_key(raw.last()@) {
            Some(t) => rest.push(t),
            None => rest,
        }
    }
}

/// The unlocked plants a save lists: the known ones, or the peashooter alone
/// when none is known.
pub open spec fn unlocked_from(raw: Seq<String>) -> Seq<PlantType> {
    if known_plants(raw).len() == 0 {
        seq![PlantType::Peashooter]
    } else {
        known_plants(raw)
    }
}

/// The default progress: level `level_1_1`, 6 slots, the peashooter.
pub open spec fn is_default_progress(p: AdventureProgress) -> bool {
    p.current_level@ == "level_1_1"@ && p.slot_count == 6 && p.unlocked_plants@ == seq![PlantType::Peashooter]
}

/// Progress that the game can run on.
pub open spec fn progress_valid(p: AdventureProgress) -> bool {
    valid_level_id(p.current_level@) && p.slot_count >= 1 && p.unlocked_plants@.len() > 0
}

/// A save's slot count when it gives none.
pub fn default_slot_count() -> (r: u32)
    ensures
        r == 6,
{
    AdventureProgress::DEFAULT_SLOT_COUNT
}

/// A save's unlocked plants when it gives none: the peashooter's key.
pub fn default_unlocked_plants_raw() -> (r: Vec<String>)
    ensures
        r@.len() == 1,
        r@[0]@ == plant_key(PlantType::Peashooter),
{
    let mut v: Vec<String> = Vec::new();
    v.push(PlantType::Peashooter.ron_key().to_owned());
    v
}

/// `id` is a level id (see [`valid_level_id`]).
pub fn is_valid_level_id(id: &str) -> (r: bool)
    ensures
        r == valid_level_id(id@),
{
    if id.is_empty() {
        return false;
    }
    let mut ok = true;
    for c in it: id.chars()
        invariant
            it.seq() == id@,
            ok == (forall|j: int| 0 <= j < it.index() ==> level_id_char(#[trigger] id@[j])),
    {
        let good = ('0' <= c && c <= '9') || ('A' <= c && c <= 'Z') || ('a' <= c && c <= 'z') || c == '_';
        ok = ok && good;
    }
    ok
}

/// The kinds named by the known keys of `raw`, or the peashooter alone.
pub fn parse_unlocked_plants(raw: &[String]) -> (r: Vec<PlantType>)
    ensures
        r@ == unlocked_from(raw@),
{
    let mut plants: Vec<PlantType> = Vec::new();
    let mut i: usize = 0;
    while i < raw.len()
        invariant
            i <= raw.len(),
            plants@ == known_plants(raw@.subrange(0, i as int)),
        decreases raw.len() - i,
    {
        proof {
            assert(raw@.subrange(0, i + 1).drop_last() =~= raw@.subrange(0, i as int));
            assert(raw@.subrange(0, i + 1).last() == raw@[i as int]);
        }
        match PlantType::from_ron_key(raw[i].as_str()) {
            Some(t) => {
                proof {
                    let k = raw@[i as int]@;
                    lemma_plant_key_injective(t, choose|ty: PlantType| plant_key(ty) == k);
                }
                plants.push(t);
            },
            None => {},
        }
        i += 1;
    }
    assert(raw@.subrange(0, raw.len() as int) =~= raw@);
    if plants.len() == 0 {
        let mut v: Vec<PlantType> = Vec::new();
        v.push(PlantType::Peashooter);
        v
    } else {
        plants
    }
}

impl AdventureProgress {
    /// The level played when there is no usable save.
    pub const DEFAULT_LEVEL: &'static str = "level_1_1";
    /// Seed slots when there is no usable save.
    pub const DEFAULT_SLOT_COUNT: u32 = 6;

    /// The progress for what reading the save gave: a save with a valid level
    /// id is taken (at least one slot; its known plants, or the peashooter);
    /// an unreadable save or one with an invalid id gives the default.
    pub fn from_loaded_save(read: Result<SaveFile, String>) -> (r: AdventureProgress)
        ensures
            match read {
                Ok(save) => if valid_level_id(save.current_level@) {
                    r.current_level == save.current_level && r.slot_count == (if save.slot_count >= 1 {
                        save.slot_count
                    } else {
                        1
                    }) && r.unlocked_plants@ == unlocked_from(save.unlocked_plants@)
                } else {
                    is_default_progress(r)
                },
                Err(_) => is_default_progress(r),
            },
            progress_valid(r),
    {
        match read {
            Ok(save) => {
                if is_valid_level_id(save.current_level.as_str()) {
                    let unlocked = parse_unlocked_plants(save.unlocked_plants.as_slice());
                    let slot_count = if save.slot_count >= 1 {
                        save.slot_count
                    } else {
                        1
                    };
                    AdventureProgress { current_level: save.current_level, slot_count, unlocked_plants: unlocked }
                } else {
                    Self::default_progress()
                }
            },
            Err(_) => Self::default_progress(),
        }
    }

    /// Level `level_1_1`, 6 slots, the peashooter unlocked.
    pub fn default_progress() -> (r: AdventureProgress)
        ensures
            is_default_progress(r),
            progress_valid(r),
    {
        proof {
            reveal_strlit("level_1_1");
        }
        let mut unlocked: Vec<PlantType> = Vec::new();
        unlocked.push(PlantType::Peashooter);
        AdventureProgress {
            current_level: String::from_str("level_1_1"),
            slot_count: Self::DEFAULT_SLOT_COUNT,
            unlocked_plants: unlocked,
        }
    }
}

impl Default for AdventureProgress {
    fn default() -> (r: AdventureProgress)
        ensures
            is_default_progress(r),
    {
        Self::default_progress()
    }
}

} // verus!
