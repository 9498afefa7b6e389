//! A level's data file: waves, spawn pool and per-level overrides.

use vstd::prelude::*;

use crate::armors::ArmorArchetypeOverride;
use crate::float_bits::{F32Bits, F64Bits};
use crate::plants::PlantArchetypeOverride;
use crate::entries::{has_distinct_keys, keys_distinct};
use crate::text::str_eq;
use crate::zombies::types::zombie_key;
use crate::zombies::{ZombieArchetypeStats, ZombieType};

verus! {

/// A level's root data (such as `level_1_1`).  Override tables list
/// `(key, override)` pairs as the file's maps hold them: read from a file,
/// no key occurs twice in a table ([`override_keys_distinct`]); a key is
/// looked up by its first pair either way.
#[derive(Debug)]
pub struct LevelDef {
    pub background: String,
    pub bgm: String,
    pub initial_sun: u32,
    pub plant_slots: Vec<String>,
    pub waves: Vec<WaveDef>,
    pub victory_condition: VictoryCondition,
    /// Zombie kinds allowed in this level's point-budget pool; `None` allows
    /// every kind of the zombie catalog.
    pub zombie_pool: Option<Vec<String>>,
    /// Per-kind replacements of zombie catalog fields, for this level only.
    pub zombie_overrides: Option<Vec<(String, ZombieArchetypeOverride)>>,
    /// Per-kind replacements of plant catalog fields, for this level only.
    pub plant_overrides: Option<Vec<(String, PlantArchetypeOverride)>>,
    /// Per-kind replacements of armor `hp`, for this level only.
    pub armor_overrides: Option<Vec<(String, ArmorArchetypeOverride)>>,
}

/// One wave: `max_points` is its spawn-point budget (spent on zombies by
/// their `score`, drawn by `weight`, from `min_wave` on).
#[derive(Clone, Copy, Debug, PartialEq, Eq, Structural)]
pub struct WaveDef {
    pub trigger: WaveTrigger,
    pub max_points: i32,
    pub is_final: bool,
}

/// When a wave starts.
#[derive(Clone, Copy, Debug, PartialEq, Eq, Structural)]
pub enum WaveTrigger {
    /// After this many seconds (an `f32`).
    Time(F32Bits),
    /// When every zombie on the lawn is dead.
    AllDead,
}

/// How a level is won.
#[derive(Clone, Copy, Debug, PartialEq, Eq, Structural)]
pub enum VictoryCondition {
    AllWavesCleared,
}

/// The level lets `ty` take part in its spawn pool.
pub open spec fn level_allows(level: LevelDef, ty: ZombieType) -> bool {
    match level.zombie_pool {
        None => true,
        Some(pool) => exists|i: int| 0 <= i < pool@.len() && pool@[i]@ == zombie_key(ty),
    }
}

/// No key occurs twice in any of the level's override tables.
pub open spec fn override_keys_distinct(level: LevelDef) -> bool {
    &&& (level.zombie_overrides matches Some(m) ==> keys_distinct(m@))
    &&& (level.plant_overrides matches Some(m) ==> keys_distinct(m@))
    &&& (level.armor_overrides matches Some(m) ==> keys_distinct(m@))
}

impl LevelDef {
    /// No key occurs twice in any override table (see [`override_keys_distinct`]).
    pub fn has_distinct_override_keys(&self) -> (r: bool)
        ensures
            r == override_keys_distinct(*self),
    {
        let zombies_ok = match &self.zombie_overrides {
            Some(m) => has_distinct_keys(m),
            None => true,
        };
        let plants_ok = match &self.plant_overrides {
            Some(m) => has_distinct_keys(m),
            None => true,
        };
        let armors_ok = match &self.armor_overrides {
            Some(m) => has_distinct_keys(m),
            None => true,
        };
        zombies_ok && plants_ok && armors_ok
    }

    /// The level lets `ty` spawn: no pool, or `ty`'s key is in the pool.
    pub fn allows_spawn_kind(&self, ty: ZombieType) -> (r: bool)
        ensures
            r == level_allows(*self, ty),
    {
        match &self.zombie_pool {
            None => true,
            Some(pool) => {
                let key = ty.ron_key();
                let mut i: usize = 0;
                while i < pool.len()
                    invariant
                        i <= pool.len(),
                        key@ == zombie_key(ty),
                        self.zombie_pool == Some(*pool),
                        forall|j: int| 0 <= j < i ==> pool@[j]@ != zombie_key(ty),
                    decreases pool.len() - i,
                {
                    if str_eq(pool[i].as_str(), key) {
                        assert(self.zombie_pool->0@[i as int]@ == zombie_key(ty));
                        assert(level_allows(*self, ty));
                        return true;
                    }
                    i += 1;
                }
                false
            },
        }
    }
}

/// A level's override of one zombie kind: each field set replaces the global one.
#[derive(Clone, Debug, PartialEq, Eq, Default)]
pub struct ZombieArchetypeOverride {
    pub armor: Option<String>,
    pub body_hp: Option<F32Bits>,
    pub secs_per_cell_min: Option<F64Bits>,
    pub secs_per_cell_max: Option<F64Bits>,
    pub state_secs_per_cell_min: Option<F64Bits>,
    pub state_secs_per_cell_max: Option<F64Bits>,
    pub attack_damage: Option<F32Bits>,
    pub attack_interval: Option<F64Bits>,
    pub sprite_dir: Option<String>,
    pub walk_frames: Option<u32>,
    pub eat_frames: Option<u32>,
    pub die_frames: Option<u32>,
    pub score: Option<i32>,
    pub weight: Option<u32>,
    pub min_wave: Option<u32>,
}

/// Takes the override's value where it has one, else the base's.
pub open spec fn or_base<T>(ov: Option<T>, base: T) -> T {
    match ov {
        Some(v) => v,
        None => base,
    }
}

/// Like [`or_base`] for a field that is itself optional.
pub open spec fn or_base_opt<T>(ov: Option<T>, base: Option<T>) -> Option<T> {
    match ov {
        Some(v) => Some(v),
        None => base,
    }
}

/// The stats an override gives: each field the override sets replaces the base's.
pub open spec fn zombie_applied(ov: ZombieArchetypeOverride, base: ZombieArchetypeStats) -> ZombieArchetypeStats {
    ZombieArchetypeStats {
        armor: or_base_opt(ov.armor, base.armor),
        body_hp: or_base(ov.body_hp, base.body_hp),
        secs_per_cell_min: or_base(ov.secs_per_cell_min, base.secs_per_cell_min),
        secs_per_cell_max: or_base(ov.secs_per_cell_max, base.secs_per_cell_max),
        state_secs_per_cell_min: or_base_opt(ov.state_secs_per_cell_min, base.state_secs_per_cell_min),
        state_secs_per_cell_max: or_base_opt(ov.state_secs_per_cell_max, base.state_secs_per_cell_max),
        attack_damage: or_base(ov.attack_damage, base.attack_damage),
        attack_interval: or_base(ov.attack_interval, base.attack_interval),
        sprite_dir: or_base(ov.sprite_dir, base.sprite_dir),
        walk_frames: or_base(ov.walk_frames, base.walk_frames),
        eat_frames: or_base(ov.eat_frames, base.eat_frames),
        die_frames: or_base(ov.die_frames, base.die_frames),
        score: or_base(ov.score, base.score),
        weight: or_base(ov.weight, base.weight),
        min_wave: or_base(ov.min_wave, base.min_wave),
    }
}

impl ZombieArchetypeOverride {
    /// The level's effective stats: `base` with the fields this override sets.
    pub fn apply_to(&self, base: &ZombieArchetypeStats) -> (r: ZombieArchetypeStats)
        ensures
            r == zombie_applied(*self, *base),
    {
        let mut s = base.duplicate();
        if let Some(v) = &self.armor {
            s.armor = Some(v.clone());
        }
        if let Some(v) = self.body_hp {
            s.body_hp = v;
        }
        if let Some(v) = self.secs_per_cell_min {
            s.secs_per_cell_min = v;
        }
        if let Some(v) = self.secs_per_cell_max {
            s.secs_per_cell_max = v;
        }
        if let Some(v) = self.state_secs_per_cell_min {
            s.state_secs_per_cell_min = Some(v);
        }
        if let Some(v) = self.state_secs_per_cell_max {
            s.state_secs_per_cell_max = Some(v);
        }
        if let Some(v) = self.attack_damage {
            s.attack_damage = v;
        }
        if let Some(v) = self.attack_interval {
            s.attack_interval = v;
        }
        if let Some(v) = &self.sprite_dir {
            s.sprite_dir = v.clone();
        }
        if let Some(v) = self.walk_frames {
            s.walk_frames = v;
        }
        if let Some(v) = self.eat_frames {
            s.eat_frames = v;
        }
        if let Some(v) = self.die_frames {
            s.die_frames = v;
        }
        if let Some(v) = self.score {
            s.score = v;
        }
        if let Some(v) = self.weight {
            s.weight = v;
        }
        if let Some(v) = self.min_wave {
            s.min_wave = v;
        }
        s
    }
}

/// Law: an override that sets nothing leaves the stats as they are.
pub proof fn lemma_zombie_empty_override_is_identity(base: ZombieArchetypeStats)
    ensures
        zombie_applied(
            ZombieArchetypeOverride {
                armor: None,
                body_hp: None,
                secs_per_cell_min: None,
                secs_per_cell_max: None,
                state_secs_per_cell_min: None,
                state_secs_per_cell_max: None,
                attack_damage: None,
                attack_interval: None,
                sprite_dir: None,
                walk_frames: None,
                eat_frames: None,
                die_frames: None,
                score: None,
                weight: None,
                min_wave: None,
            },
            base,
        ) == base,
{
}

/// Law: applying the same override twice gives what applying it once gives.
pub proof fn lemma_zombie_override_idempotent(ov: ZombieArchetypeOverride, base: ZombieArchetypeStats)
    ensures
        zombie_applied(ov, zombie_applied(ov, base)) == zombie_applied(ov, base),
{
}


/// Law: each field a zombie override sets is the merged value, and each it
/// leaves unset keeps the base's value.
pub proof fn lemma_zombie_override_fields(ov: ZombieArchetypeOverride, base: ZombieArchetypeStats)
    ensures
        ov.body_hp matches Some(v) ==> zombie_applied(ov, base).body_hp == v,
        ov.body_hp is None ==> zombie_applied(ov, base).body_hp == base.body_hp,
        ov.secs_per_cell_min matches Some(v) ==> zombie_applied(ov, base).secs_per_cell_min == v,
        ov.secs_per_cell_min is None ==> zombie_applied(ov, base).secs_per_cell_min == base.secs_per_cell_min,
        ov.secs_per_cell_max matches Some(v) ==> zombie_applied(ov, base).secs_per_cell_max == v,
        ov.secs_per_cell_max is None ==> zombie_applied(ov, base).secs_per_cell_max == base.secs_per_cell_max,
        ov.attack_damage matches Some(v) ==> zombie_applied(ov, base).attack_damage == v,
        ov.attack_damage is None ==> zombie_applied(ov, base).attack_damage == base.attack_damage,
        ov.attack_interval matches Some(v) ==> zombie_applied(ov, base).attack_interval == v,
        ov.attack_interval is None ==> zombie_applied(ov, base).attack_interval == base.attack_interval,
        ov.sprite_dir matches Some(v) ==> zombie_applied(ov, base).sprite_dir == v,
        ov.sprite_dir is None ==> zombie_applied(ov, base).sprite_dir == base.sprite_dir,
        ov.walk_frames matches Some(v) ==> zombie_applied(ov, base).walk_frames == v,
        ov.walk_frames is None ==> zombie_applied(ov, base).walk_frames == base.walk_frames,
        ov.eat_frames matches Some(v) ==> zombie_applied(ov, base).eat_frames == v,
        ov.eat_frames is None ==> zombie_applied(ov, base).eat_frames == base.eat_frames,
        ov.die_frames matches Some(v) ==> zombie_applied(ov, base).die_frames == v,
        ov.die_frames is None ==> zombie_applied(ov, base).die_frames == base.die_frames,
        ov.score matches Some(v) ==> zombie_applied(ov, base).score == v,
        ov.score is None ==> zombie_applied(ov, base).score == base.score,
        ov.weight matches Some(v) ==> zombie_applied(ov, base).weight == v,
        ov.weight is None ==> zombie_applied(ov, base).weight == base.weight,
        ov.min_wave matches Some(v) ==> zombie_applied(ov, base).min_wave == v,
        ov.min_wave is None ==> zombie_applied(ov, base).min_wave == base.min_wave,
        ov.armor matches Some(v) ==> zombie_applied(ov, base).armor == Some(v),
        ov.armor is None ==> zombie_applied(ov, base).armor == base.armor,
        ov.state_secs_per_cell_min matches Some(v) ==> zombie_applied(ov, base).state_secs_per_cell_min == Some(v),
        ov.state_secs_per_cell_min is None ==> zombie_applied(ov, base).state_secs_per_cell_min == base.state_secs_per_cell_min,
        ov.state_secs_per_cell_max matches Some(v) ==> zombie_applied(ov, base).state_secs_per_cell_max == Some(v),
        ov.state_secs_per_cell_max is None ==> zombie_applied(ov, base).state_secs_per_cell_max == base.state_secs_per_cell_max,
{
}

/// Law: with a zombie pool, every kind whose key the pool lists (at any
/// position) may spawn, and no other kind may.
pub proof fn lemma_pool_allows_listed_kinds(level: LevelDef, pool: Vec<String>, ty: ZombieType)
    requires
        level.zombie_pool == Some(pool),
    ensures
        level_allows(level, ty) <==> (exists|i: int| 0 <= i < pool@.len() && #[trigger] pool@[i]@ == zombie_key(ty)),
        forall|i: int| 0 <= i < pool@.len() && #[trigger] pool@[i]@ == zombie_key(ty) ==> level_allows(level, ty),
{
    let listed = level.zombie_pool->0;
    assert(listed@ == pool@);
    if level_allows(level, ty) {
        let i = choose|i: int| 0 <= i < listed@.len() && listed@[i]@ == zombie_key(ty);
        assert(pool@[i]@ == zombie_key(ty));
    }
    assert forall|i: int| 0 <= i < pool@.len() && #[trigger] pool@[i]@ == zombie_key(ty) implies level_allows(
        level,
        ty,
    ) by {
        assert(listed@[i]@ == zombie_key(ty));
    }
}

/// Law: without a zombie pool every kind may spawn.
pub proof fn lemma_no_pool_allows_every_kind(level: LevelDef, ty: ZombieType)
    requires
        level.zombie_pool is None,
    ensures
        level_allows(level, ty),
{
}

} // verus!
