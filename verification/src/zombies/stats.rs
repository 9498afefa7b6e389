//! One zombie kind's numbers, the per-level override of them, and their check.

use vstd::prelude::*;

use crate::armors::types::is_armor_key;
use crate::armors::ArmorsCatalog;
use crate::float_bits::{F32Bits, F64Bits};
use crate::text::clone_opt_string;

use super::types::ZombieType;

verus! {

/// One zombie kind's entry in the zombie catalog.
///
/// Movement speed is a seconds-per-cell range; a zombie draws once from it
/// when it enters.  `score > 0 && weight > 0` puts the kind in the
/// point-budget spawn pool from wave `min_wave` on.
#[derive(Clone, Debug, PartialEq, Eq)]
pub struct ZombieArchetypeStats {
    /// Key of the armor it wears (an armor catalog key), if any.
    pub armor: Option<String>,
    /// Body hit points (an `f32`).
    pub body_hp: F32Bits,
    /// Fewest seconds per cell (an `f64`, inclusive).
    pub secs_per_cell_min: F64Bits,
    /// Most seconds per cell (an `f64`, inclusive).
    pub secs_per_cell_max: F64Bits,
    /// Seconds-per-cell range after a state change (landing pole vaulter,
    /// enraged newspaper zombie, dancing king's dance cycle).
    pub state_secs_per_cell_min: Option<F64Bits>,
    pub state_secs_per_cell_max: Option<F64Bits>,
    /// Bite damage (an `f32`).
    pub attack_damage: F32Bits,
    /// Seconds between bites (an `f64`).
    pub attack_interval: F64Bits,
    pub sprite_dir: String,
    pub walk_frames: u32,
    pub eat_frames: u32,
    pub die_frames: u32,
    /// Spawn points it costs; `<= 0` keeps it out of the point-budget pool.
    pub score: i32,
    /// Spawn weight; `0` keeps it out of the weighted draw.
    pub weight: u32,
    /// First wave (from 1) in which it may enter the point-budget pool.
    pub min_wave: u32,
}

/// What is wrong with a zombie entry.
#[derive(Clone, Debug, PartialEq, Eq)]
pub enum ZombieConfigError {
    /// `body_hp <= 0`.
    NonPositiveBodyHp,
    /// `secs_per_cell_min > secs_per_cell_max`.
    SpeedRangeInverted,
    /// `score < 0`.
    NegativeScore,
    /// Neither in the point pool (`score > 0 && weight > 0`) nor spawned by
    /// scripts only (`score <= 0 && weight == 0`).
    InconsistentSpawnWeights { score: i32, weight: u32 },
    /// In the point pool with `min_wave < 1`.
    MinWaveBelowOne,
    /// `armor` is the empty string.
    EmptyArmorKey,
    /// `armor` names no armor kind.
    UnknownArmor(String),
    /// The dancing king lacks `state_secs_per_cell_min` or `_max`.
    MissingStateSpeed,
    /// The dancing king's `state_secs_per_cell_min > state_secs_per_cell_max`.
    StateSpeedRangeInverted,
}

/// The kind takes part in the point-budget spawn pool.
pub open spec fn zombie_in_point_pool(s: ZombieArchetypeStats) -> bool {
    s.score > 0 && s.weight > 0
}

/// The first problem of a zombie entry, checks taken in order.
pub open spec fn zombie_entry_problem(ty: ZombieType, s: ZombieArchetypeStats) -> Option<ZombieConfigError> {
    if s.body_hp.ieee_le(F32Bits(0)) {
        Some(ZombieConfigError::NonPositiveBodyHp)
    } else if s.secs_per_cell_max.ieee_lt(s.secs_per_cell_min) {
        Some(ZombieConfigError::SpeedRangeInverted)
    } else if s.score < 0 {
        Some(ZombieConfigError::NegativeScore)
    } else if !zombie_in_point_pool(s) && !(s.score <= 0 && s.weight == 0) {
        Some(ZombieConfigError::InconsistentSpawnWeights { score: s.score, weight: s.weight })
    } else if zombie_in_point_pool(s) && s.min_wave < 1 {
        Some(ZombieConfigError::MinWaveBelowOne)
    } else if s.armor is Some && s.armor->0@.len() == 0 {
        Some(ZombieConfigError::EmptyArmorKey)
    } else if s.armor is Some && !is_armor_key(s.armor->0@) {
        Some(ZombieConfigError::UnknownArmor(s.armor->0))
    } else if ty == ZombieType::DancingZombie && (s.state_secs_per_cell_min is None
        || s.state_secs_per_cell_max is None) {
        Some(ZombieConfigError::MissingStateSpeed)
    } else if ty == ZombieType::DancingZombie && s.state_secs_per_cell_max->0.ieee_lt(
        s.state_secs_per_cell_min->0,
    ) {
        Some(ZombieConfigError::StateSpeedRangeInverted)
    } else {
        None
    }
}

impl ZombieArchetypeStats {
    /// A copy equal to `self`.
    pub fn duplicate(&self) -> (r: ZombieArchetypeStats)
        ensures
            r == *self,
    {
        ZombieArchetypeStats {
            armor: clone_opt_string(&self.armor),
            body_hp: self.body_hp,
            secs_per_cell_min: self.secs_per_cell_min,
            secs_per_cell_max: self.secs_per_cell_max,
            state_secs_per_cell_min: self.state_secs_per_cell_min,
            state_secs_per_cell_max: self.state_secs_per_cell_max,
            attack_damage: self.attack_damage,
            attack_interval: self.attack_interval,
            sprite_dir: self.sprite_dir.clone(),
            walk_frames: self.walk_frames,
            eat_frames: self.eat_frames,
            die_frames: self.die_frames,
            score: self.score,
            weight: self.weight,
            min_wave: self.min_wave,
        }
    }

    /// Takes part in the point-budget spawn pool (`score > 0 && weight > 0`).
    pub fn participates_in_point_spawn_pool(&self) -> (r: bool)
        ensures
            r == zombie_in_point_pool(*self),
    {
        self.score > 0 && self.weight > 0
    }
}

/// Checks a zombie entry (a catalog entry or a level's merged one); an armor
/// key must name an entry of `armors`.
pub fn validate_zombie_archetype(
    ty: ZombieType,
    stats: &ZombieArchetypeStats,
    armors: &ArmorsCatalog,
) -> (r: Result<(), ZombieConfigError>)
    ensures
        r == match zombie_entry_problem(ty, *stats) {
            Some(e) => Err(e),
            None => Ok(()),
        },
{
    if stats.body_hp.at_most(&F32Bits::zero()) {
        return Err(ZombieConfigError::NonPositiveBodyHp);
    }
    if stats.secs_per_cell_min.greater_than(&stats.secs_per_cell_max) {
        return Err(ZombieConfigError::SpeedRangeInverted);
    }
    if stats.score < 0 {
        return Err(ZombieConfigError::NegativeScore);
    }
    let in_pool = stats.participates_in_point_spawn_pool();
    let script_only = stats.score <= 0 && stats.weight == 0;
    if !in_pool && !script_only {
        return Err(ZombieConfigError::InconsistentSpawnWeights { score: stats.score, weight: stats.weight });
    }
    if in_pool && stats.min_wave < 1 {
        return Err(ZombieConfigError::MinWaveBelowOne);
    }
    if let Some(armor_key) = &stats.armor {
        if armor_key.as_str().is_empty() {
            return Err(ZombieConfigError::EmptyArmorKey);
        }
        if armors.get_by_key(armor_key.as_str()).is_none() {
            return Err(ZombieConfigError::UnknownArmor(armor_key.clone()));
        }
    }
    if ty == ZombieType::DancingZombie {
        match (stats.state_secs_per_cell_min, stats.state_secs_per_cell_max) {
            (Some(lo), Some(hi)) => {
                if lo.greater_than(&hi) {
                    return Err(ZombieConfigError::StateSpeedRangeInverted);
                }
            },
            _ => {
                return Err(ZombieConfigError::MissingStateSpeed);
            },
        }
    }
    Ok(())
}


/// The zombie entry check for an entry that passes it: a bad entry stops the
/// game, so it is no input of this function (see [`validate_zombie_archetype`]
/// for the check that reports it).
pub fn validate_zombie_entry(ty: ZombieType, stats: &ZombieArchetypeStats, armors: &ArmorsCatalog)
    requires
        zombie_entry_problem(ty, *stats) is None,
{
    let checked = validate_zombie_archetype(ty, stats, armors);
    assert(checked is Ok);
}

} // verus!
