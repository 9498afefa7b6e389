//! A level's overrides merged over the global catalogs, the spawn parameters
//! that result, and the check of a level's pool and override tables.

use vstd::prelude::*;

use crate::armors::ArmorsCatalog;
use crate::entries::{
    find_key, first_with_key, has_key, is_first_with_key, lemma_first_with_key, lemma_key_has_first, lookup,
};
use crate::plants::stats::{
    lemma_same_plant_stats_same_problem, plant_applied, plant_entry_problem, plant_stats_same,
    PlantConfigError,
};
use crate::plants::types::{is_plant_key, lemma_plant_key_injective, plant_key};
use crate::plants::{validate_plant_archetype, PlantArchetypeOverride, PlantArchetypeStats, PlantType, PlantsCatalog};
use crate::zombies::stats::{zombie_entry_problem, ZombieConfigError};
use crate::zombies::types::{is_zombie_key, lemma_zombie_key_injective, zombie_key};
use crate::zombies::{validate_zombie_archetype, ZombieArchetypeStats, ZombieType, ZombiesCatalog};

use super::data::{level_allows, zombie_applied, LevelDef, ZombieArchetypeOverride};

verus! {

/// A zombie kind's spawn parameters in a level (used by the point-budget pool).
#[derive(Clone, Copy, Debug, PartialEq, Eq, Structural)]
pub struct EffectiveSpawnParams {
    pub score: i32,
    pub weight: u32,
    pub min_wave: u32,
}

/// Where a level names a key.
#[derive(Clone, Copy, Debug, PartialEq, Eq, Structural)]
pub enum KeyContext {
    ZombiePool,
    ZombieOverrides,
    PlantOverrides,
}

/// What is wrong with a level's pool or override tables.
#[derive(Clone, Debug, PartialEq, Eq)]
pub enum LevelBalanceError {
    /// `zombie_pool` is present but lists no kind.
    EmptyZombiePool,
    /// A key that names no zombie kind.
    UnknownZombieKey { context: KeyContext, key: String },
    /// A key that names no plant kind.
    UnknownPlantKey { context: KeyContext, key: String },
    /// A zombie kind's merged entry fails its check.
    InvalidZombieOverride { ty: ZombieType, error: ZombieConfigError },
    /// A plant kind's merged entry fails its check.
    InvalidPlantOverride { ty: PlantType, error: PlantConfigError },
}

/// The name of a key's place in the level file.
pub open spec fn key_context_text(c: KeyContext) -> Seq<char> {
    match c {
        KeyContext::ZombiePool => "zombie_pool"@,
        KeyContext::ZombieOverrides => "zombie_overrides"@,
        KeyContext::PlantOverrides => "plant_overrides"@,
    }
}

/// The message that reports a balance error.
pub open spec fn balance_error_text(e: LevelBalanceError) -> Seq<char> {
    match e {
        LevelBalanceError::EmptyZombiePool => "zombie_pool 非空时至少须列一种僵尸"@,
        LevelBalanceError::UnknownZombieKey { context, key } => key_context_text(context) + " 含未知僵尸键 "@
            + key@ + "（须与 zombies.ron / ZombieType 一致）"@,
        LevelBalanceError::UnknownPlantKey { context, key } => key_context_text(context) + " 含未知植物键 "@
            + key@ + "（须与 plants.ron / PlantType 一致）"@,
        LevelBalanceError::InvalidZombieOverride { ty, error: _ } => "zombie_overrides 中 "@ + zombie_key(ty)
            + " 覆盖后的数值无效"@,
        LevelBalanceError::InvalidPlantOverride { ty, error: _ } => "plant_overrides 中 "@ + plant_key(ty)
            + " 覆盖后的数值无效"@,
    }
}

impl KeyContext {
    /// The name of the place in the level file.
    pub fn name(&self) -> (r: &'static str)
        ensures
            r@ == key_context_text(*self),
    {
        match self {
            KeyContext::ZombiePool => "zombie_pool",
            KeyContext::ZombieOverrides => "zombie_overrides",
            KeyContext::PlantOverrides => "plant_overrides",
        }
    }
}

impl LevelBalanceError {
    /// The message that reports the error (see [`balance_error_text`]).
    pub fn message(&self) -> (r: String)
        ensures
            r@ == balance_error_text(*self),
    {
        match self {
            LevelBalanceError::EmptyZombiePool => String::from_str("zombie_pool 非空时至少须列一种僵尸"),
            LevelBalanceError::UnknownZombieKey { context, key } => {
                let mut m = String::from_str(context.name());
                m.append(" 含未知僵尸键 ");
                m.append(key.as_str());
                m.append("（须与 zombies.ron / ZombieType 一致）");
                m
            },
            LevelBalanceError::UnknownPlantKey { context, key } => {
                let mut m = String::from_str(context.name());
                m.append(" 含未知植物键 ");
                m.append(key.as_str());
                m.append("（须与 plants.ron / PlantType 一致）");
                m
            },
            LevelBalanceError::InvalidZombieOverride { ty, error: _ } => {
                let mut m = String::from_str("zombie_overrides 中 ");
                m.append(ty.ron_key());
                m.append(" 覆盖后的数值无效");
                m
            },
            LevelBalanceError::InvalidPlantOverride { ty, error: _ } => {
                let mut m = String::from_str("plant_overrides 中 ");
                m.append(ty.ron_key());
                m.append(" 覆盖后的数值无效");
                m
            },
        }
    }
}

/// Takes part in the point-budget spawn pool.
pub open spec fn params_in_pool(p: EffectiveSpawnParams) -> bool {
    p.score > 0 && p.weight > 0
}

/// The level's override of zombie kind `ty`, if it has one.
pub open spec fn zombie_override_of(level: LevelDef, ty: ZombieType) -> Option<ZombieArchetypeOverride> {
    match level.zombie_overrides {
        None => None,
        Some(m) => lookup(m@, zombie_key(ty)),
    }
}

/// The level's override of plant kind `ty`, if it has one.
pub open spec fn plant_override_of(level: LevelDef, ty: PlantType) -> Option<PlantArchetypeOverride> {
    match level.plant_overrides {
        None => None,
        Some(m) => lookup(m@, plant_key(ty)),
    }
}

/// Zombie kind `ty`'s numbers in the level: its catalog entry under the level's override.
pub open spec fn effective_zombie(catalog: ZombiesCatalog, level: LevelDef, ty: ZombieType) -> ZombieArchetypeStats {
    match zombie_override_of(level, ty) {
        Some(ov) => zombie_applied(ov, catalog.stats_of(ty)),
        None => catalog.stats_of(ty),
    }
}

/// Plant kind `ty`'s numbers in the level: its catalog entry under the level's override.
pub open spec fn effective_plant(catalog: PlantsCatalog, level: LevelDef, ty: PlantType) -> PlantArchetypeStats {
    match plant_override_of(level, ty) {
        Some(ov) => plant_applied(ov, catalog.stats_of(ty)),
        None => catalog.stats_of(ty),
    }
}

/// The spawn parameters read off a zombie entry.
pub open spec fn params_of(s: ZombieArchetypeStats) -> EffectiveSpawnParams {
    EffectiveSpawnParams { score: s.score, weight: s.weight, min_wave: s.min_wave }
}

/// Zombie kind `ty`'s spawn parameters in the level; `None` when the pool
/// excludes it or it does not take part in the point-budget pool.
pub open spec fn effective_spawn(catalog: ZombiesCatalog, level: LevelDef, ty: ZombieType) -> Option<EffectiveSpawnParams> {
    if !level_allows(level, ty) {
        None
    } else if params_in_pool(params_of(effective_zombie(catalog, level, ty))) {
        Some(params_of(effective_zombie(catalog, level, ty)))
    } else {
        None
    }
}

impl EffectiveSpawnParams {
    /// Takes part in the point-budget pool (`score > 0 && weight > 0`).
    pub fn participates_in_point_spawn_pool(&self) -> (r: bool)
        ensures
            r == params_in_pool(*self),
    {
        self.score > 0 && self.weight > 0
    }
}

/// Zombie kind `ty`'s numbers in this level (catalog entry under the level's override).
pub fn effective_zombie_stats(catalog: &ZombiesCatalog, level: &LevelDef, ty: ZombieType) -> (r: Option<
    ZombieArchetypeStats,
>)
    ensures
        r == Some(effective_zombie(*catalog, *level, ty)),
{
    let base = catalog.get(ty).unwrap();
    let ov_index = match &level.zombie_overrides {
        Some(m) => find_key(m, ty.ron_key()),
        None => None,
    };
    match (&level.zombie_overrides, ov_index) {
        (Some(m), Some(k)) => Some(m[k].1.apply_to(base)),
        _ => Some(base.duplicate()),
    }
}

/// Plant kind `ty`'s numbers in this level (catalog entry under the level's override).
pub fn effective_plant_stats(catalog: &PlantsCatalog, level: &LevelDef, ty: PlantType) -> (r: Option<
    PlantArchetypeStats,
>)
    ensures
        r matches Some(s) && plant_stats_same(s, effective_plant(*catalog, *level, ty)),
{
    let base = catalog.get(ty).unwrap();
    let ov_index = match &level.plant_overrides {
        Some(m) => find_key(m, ty.ron_key()),
        None => None,
    };
    match (&level.plant_overrides, ov_index) {
        (Some(m), Some(k)) => Some(m[k].1.apply_to(base)),
        _ => Some(base.duplicate()),
    }
}

/// Zombie kind `ty`'s spawn parameters in this level; `None` when the
/// level's pool excludes it or its merged entry is not in the point-budget pool.
pub fn effective_spawn_params(catalog: &ZombiesCatalog, level: &LevelDef, ty: ZombieType) -> (r: Option<
    EffectiveSpawnParams,
>)
    ensures
        r == effective_spawn(*catalog, *level, ty),
{
    if !level.allows_spawn_kind(ty) {
        return None;
    }
    let stats = effective_zombie_stats(catalog, level, ty).unwrap();
    let params = EffectiveSpawnParams { score: stats.score, weight: stats.weight, min_wave: stats.min_wave };
    if !params.participates_in_point_spawn_pool() {
        return None;
    }
    Some(params)
}

/// `Ok` when `key` names a zombie kind, else the error naming it and where it stands.
pub fn assert_known_zombie_key(key: &String, context: KeyContext) -> (r: Result<(), LevelBalanceError>)
    ensures
        r == if is_zombie_key(key@) {
            Ok(())
        } else {
            Err(LevelBalanceError::UnknownZombieKey { context, key: *key })
        },
{
    match ZombieType::from_ron_key(key.as_str()) {
        Some(_) => Ok(()),
        None => Err(LevelBalanceError::UnknownZombieKey { context, key: key.clone() }),
    }
}

/// `Ok` when `key` names a plant kind, else the error naming it and where it stands.
pub fn assert_known_plant_key(key: &String, context: KeyContext) -> (r: Result<(), LevelBalanceError>)
    ensures
        r == if is_plant_key(key@) {
            Ok(())
        } else {
            Err(LevelBalanceError::UnknownPlantKey { context, key: *key })
        },
{
    match PlantType::from_ron_key(key.as_str()) {
        Some(_) => Ok(()),
        None => Err(LevelBalanceError::UnknownPlantKey { context, key: key.clone() }),
    }
}

/// The zombie kind a known key names.
pub fn zombie_type_from_key(key: &str) -> (ty: ZombieType)
    requires
        is_zombie_key(key@),
    ensures
        zombie_key(ty) == key@,
{
    match ZombieType::from_ron_key(key) {
        Some(ty) => ty,
        None => {
            assert(false);
            ZombieType::Zombie
        },
    }
}

/// The plant kind a known key names.
pub fn plant_type_from_key(key: &str) -> (ty: PlantType)
    requires
        is_plant_key(key@),
    ensures
        plant_key(ty) == key@,
{
    match PlantType::from_ron_key(key) {
        Some(ty) => ty,
        None => {
            assert(false);
            PlantType::Peashooter
        },
    }
}

/// The first unknown key of a pool, from position `i` on.
pub open spec fn zombie_pool_problem(pool: Seq<String>, i: int) -> Option<LevelBalanceError>
    decreases pool.len() - i,
{
    if i < 0 || i >= pool.len() {
        None
    } else if !is_zombie_key(pool[i]@) {
        Some(LevelBalanceError::UnknownZombieKey { context: KeyContext::ZombiePool, key: pool[i] })
    } else {
        zombie_pool_problem(pool, i + 1)
    }
}

/// The zombie kind named by a known key.
pub open spec fn zombie_of_key(key: Seq<char>) -> ZombieType {
    choose|ty: ZombieType| zombie_key(ty) == key
}

/// The plant kind named by a known key.
pub open spec fn plant_of_key(key: Seq<char>) -> PlantType {
    choose|ty: PlantType| plant_key(ty) == key
}

/// The first problem among zombie overrides, from position `i` on.
pub open spec fn zombie_overrides_problem(
    ovs: Seq<(String, ZombieArchetypeOverride)>,
    zombies: ZombiesCatalog,
    i: int,
) -> Option<LevelBalanceError>
    decreases ovs.len() - i,
{
    if i < 0 || i >= ovs.len() {
        None
    } else if !is_zombie_key(ovs[i].0@) {
        Some(LevelBalanceError::UnknownZombieKey { context: KeyContext::ZombieOverrides, key: ovs[i].0 })
    } else {
        let ty = zombie_of_key(ovs[i].0@);
        match zombie_entry_problem(ty, zombie_applied(ovs[i].1, zombies.stats_of(ty))) {
            Some(e) => Some(LevelBalanceError::InvalidZombieOverride { ty: ty, error: e }),
            None => zombie_overrides_problem(ovs, zombies, i + 1),
        }
    }
}

/// The first problem among plant overrides, from position `i` on.
pub open spec fn plant_overrides_problem(
    ovs: Seq<(String, PlantArchetypeOverride)>,
    plants: PlantsCatalog,
    i: int,
) -> Option<LevelBalanceError>
    decreases ovs.len() - i,
{
    if i < 0 || i >= ovs.len() {
        None
    } else if !is_plant_key(ovs[i].0@) {
        Some(LevelBalanceError::UnknownPlantKey { context: KeyContext::PlantOverrides, key: ovs[i].0 })
    } else {
        let ty = plant_of_key(ovs[i].0@);
        match plant_entry_problem(ty, plant_applied(ovs[i].1, plants.stats_of(ty))) {
            Some(e) => Some(LevelBalanceError::InvalidPlantOverride { ty: ty, error: e }),
            None => plant_overrides_problem(ovs, plants, i + 1),
        }
    }
}

/// The first problem of a level's pool, if it has one.
pub open spec fn pool_part(level: LevelDef) -> Option<LevelBalanceError> {
    match level.zombie_pool {
        Some(pool) => if pool@.len() == 0 {
            Some(LevelBalanceError::EmptyZombiePool)
        } else {
            zombie_pool_problem(pool@, 0)
        },
        None => None,
    }
}

/// The first problem of a level's zombie overrides, if it has them.
pub open spec fn zombie_overrides_part(level: LevelDef, zombies: ZombiesCatalog) -> Option<LevelBalanceError> {
    match level.zombie_overrides {
        Some(ovs) => zombie_overrides_problem(ovs@, zombies, 0),
        None => None,
    }
}

/// The first problem of a level's plant overrides, if it has them.
pub open spec fn plant_overrides_part(level: LevelDef, plants: PlantsCatalog) -> Option<LevelBalanceError> {
    match level.plant_overrides {
        Some(ovs) => plant_overrides_problem(ovs@, plants, 0),
        None => None,
    }
}

/// The first problem of a level's pool and override tables, in the order:
/// the pool, the zombie overrides, the plant overrides.
pub open spec fn level_balance_problem(level: LevelDef, zombies: ZombiesCatalog, plants: PlantsCatalog) -> Option<
    LevelBalanceError,
> {
    if pool_part(level) is Some {
        pool_part(level)
    } else if zombie_overrides_part(level, zombies) is Some {
        zombie_overrides_part(level, zombies)
    } else {
        plant_overrides_part(level, plants)
    }
}

/// With no problem from position `i` on, the override at `j >= i` names a
/// zombie kind and its merged entry passes the kind's check.
proof fn lemma_zombie_override_passes(
    ovs: Seq<(String, ZombieArchetypeOverride)>,
    zombies: ZombiesCatalog,
    i: int,
    j: int,
)
    requires
        0 <= i <= j < ovs.len(),
        zombie_overrides_problem(ovs, zombies, i) is None,
    ensures
        is_zombie_key(ovs[j].0@),
        zombie_entry_problem(
            zombie_of_key(ovs[j].0@),
            zombie_applied(ovs[j].1, zombies.stats_of(zombie_of_key(ovs[j].0@))),
        ) is None,
    decreases j - i,
{
    if i < j {
        lemma_zombie_override_passes(ovs, zombies, i + 1, j);
    }
}

/// With no problem from position `i` on, the override at `j >= i` names a
/// plant kind and its merged entry passes the kind's check.
proof fn lemma_plant_override_passes(ovs: Seq<(String, PlantArchetypeOverride)>, plants: PlantsCatalog, i: int, j: int)
    requires
        0 <= i <= j < ovs.len(),
        plant_overrides_problem(ovs, plants, i) is None,
    ensures
        is_plant_key(ovs[j].0@),
        plant_entry_problem(
            plant_of_key(ovs[j].0@),
            plant_applied(ovs[j].1, plants.stats_of(plant_of_key(ovs[j].0@))),
        ) is None,
    decreases j - i,
{
    if i < j {
        lemma_plant_override_passes(ovs, plants, i + 1, j);
    }
}

/// Law: in a level that passes its balance check, over catalogs whose entries
/// pass their checks, every zombie and plant kind's numbers in the level (its
/// entry under the level's override) pass the kind's check.
pub proof fn lemma_balanced_level_stats_pass(level: LevelDef, zombies: ZombiesCatalog, plants: PlantsCatalog)
    requires
        level_balance_problem(level, zombies, plants) is None,
        forall|ty: ZombieType| zombie_entry_problem(ty, #[trigger] zombies.stats_of(ty)) is None,
        forall|ty: PlantType| plant_entry_problem(ty, #[trigger] plants.stats_of(ty)) is None,
    ensures
        forall|ty: ZombieType| zombie_entry_problem(ty, #[trigger] effective_zombie(zombies, level, ty)) is None,
        forall|ty: PlantType| plant_entry_problem(ty, #[trigger] effective_plant(plants, level, ty)) is None,
{
    assert forall|ty: ZombieType| zombie_entry_problem(ty, #[trigger] effective_zombie(zombies, level, ty)) is None by {
        if let Some(ovs) = level.zombie_overrides {
            let key = zombie_key(ty);
            if has_key(ovs@, key) {
                let j = choose|j: int| 0 <= j < ovs@.len() && ovs@[j].0@ == key;
                lemma_key_has_first(ovs@, key, j);
                let k = first_with_key(ovs@, key);
                lemma_first_with_key(ovs@, key, k);
                lemma_zombie_override_passes(ovs@, zombies, 0, k);
                let t = zombie_of_key(key);
                lemma_zombie_key_injective(t, ty);
            }
        }
    }
    assert forall|ty: PlantType| plant_entry_problem(ty, #[trigger] effective_plant(plants, level, ty)) is None by {
        if let Some(ovs) = level.plant_overrides {
            let key = plant_key(ty);
            if has_key(ovs@, key) {
                let j = choose|j: int| 0 <= j < ovs@.len() && ovs@[j].0@ == key;
                lemma_key_has_first(ovs@, key, j);
                let k = first_with_key(ovs@, key);
                lemma_first_with_key(ovs@, key, k);
                lemma_plant_override_passes(ovs@, plants, 0, k);
                let t = plant_of_key(key);
                lemma_plant_key_injective(t, ty);
            }
        }
    }
}

/// Checks a loaded level: a present pool lists at least one kind and only
/// known keys; every override names a known kind and its merged entry passes
/// the kind's check (zombie armor against `armors`).
pub fn validate_level_balance_config(
    level: &LevelDef,
    zombies: &ZombiesCatalog,
    plants: &PlantsCatalog,
    armors: &ArmorsCatalog,
) -> (r: Result<(), LevelBalanceError>)
    ensures
        r == match level_balance_problem(*level, *zombies, *plants) {
            Some(e) => Err(e),
            None => Ok(()),
        },
{
    if let Some(pool) = &level.zombie_pool {
        if pool.len() == 0 {
            return Err(LevelBalanceError::EmptyZombiePool);
        }
        let mut i: usize = 0;
        while i < pool.len()
            invariant
                i <= pool.len(),
                pool@.len() > 0,
                level.zombie_pool == Some(*pool),
                zombie_pool_problem(pool@, 0) == zombie_pool_problem(pool@, i as int),
            decreases pool.len() - i,
        {
            assert_known_zombie_key(&pool[i], KeyContext::ZombiePool)?;
            i += 1;
        }
    }
    if let Some(ovs) = &level.zombie_overrides {
        let mut i: usize = 0;
        while i < ovs.len()
            invariant
                i <= ovs.len(),
                pool_part(*level) is None,
                level.zombie_overrides == Some(*ovs),
                zombie_overrides_problem(ovs@, *zombies, 0) == zombie_overrides_problem(ovs@, *zombies, i as int),
            decreases ovs.len() - i,
        {
            let key = &ovs[i].0;
            assert_known_zombie_key(key, KeyContext::ZombieOverrides)?;
            let ty = zombie_type_from_key(key.as_str());
            proof {
                crate::zombies::types::lemma_zombie_key_injective(ty, zombie_of_key(key@));
            }
            let base = zombies.get(ty).unwrap();
            let merged = ovs[i].1.apply_to(base);
            if let Err(e) = validate_zombie_archetype(ty, &merged, armors) {
                return Err(LevelBalanceError::InvalidZombieOverride { ty, error: e });
            }
            i += 1;
        }
    }
    if let Some(ovs) = &level.plant_overrides {
        let mut i: usize = 0;
        while i < ovs.len()
            invariant
                i <= ovs.len(),
                pool_part(*level) is None,
                zombie_overrides_part(*level, *zombies) is None,
                level.plant_overrides == Some(*ovs),
                plant_overrides_problem(ovs@, *plants, 0) == plant_overrides_problem(ovs@, *plants, i as int),
            decreases ovs.len() - i,
        {
            let key = &ovs[i].0;
            assert_known_plant_key(key, KeyContext::PlantOverrides)?;
            let ty = plant_type_from_key(key.as_str());
            proof {
                crate::plants::types::lemma_plant_key_injective(ty, plant_of_key(key@));
            }
            let base = plants.get(ty).unwrap();
            let merged = ovs[i].1.apply_to(base);
            proof {
                lemma_same_plant_stats_same_problem(ty, merged, plant_applied(ovs@[i as int].1, plants.stats_of(ty)));
            }
            if let Err(e) = validate_plant_archetype(ty, &merged) {
                return Err(LevelBalanceError::InvalidPlantOverride { ty, error: e });
            }
            i += 1;
        }
    }
    Ok(())
}


/// The level balance check for a level that passes it: a bad level stops the
/// game, so it is no input of this function (see
/// [`validate_level_balance_config`] for the check that reports it).
pub fn require_valid_level_balance(
    level: &LevelDef,
    zombies: &ZombiesCatalog,
    plants: &PlantsCatalog,
    armors: &ArmorsCatalog,
)
    requires
        level_balance_problem(*level, *zombies, *plants) is None,
{
    let checked = validate_level_balance_config(level, zombies, plants, armors);
    assert(checked is Ok);
}

/// The known-key check for a key that names a zombie kind: an unknown key
/// stops the game, so it is no input of this function (see
/// [`assert_known_zombie_key`] for the check that reports it).
pub fn require_known_zombie_key(key: &String, context: KeyContext)
    requires
        is_zombie_key(key@),
{
    let checked = assert_known_zombie_key(key, context);
    assert(checked is Ok);
}

/// The known-key check for a key that names a plant kind: an unknown key
/// stops the game, so it is no input of this function (see
/// [`assert_known_plant_key`] for the check that reports it).
pub fn require_known_plant_key(key: &String, context: KeyContext)
    requires
        is_plant_key(key@),
{
    let checked = assert_known_plant_key(key, context);
    assert(checked is Ok);
}

/// Law: a zombie kind's numbers in a level are its catalog entry merged with
/// the override the level lists under the kind's key (the first pair with
/// that key).
pub proof fn lemma_effective_zombie_from_table(zombies: ZombiesCatalog, level: LevelDef, ty: ZombieType, i: int)
    requires
        level.zombie_overrides is Some,
        is_first_with_key(level.zombie_overrides->0@, zombie_key(ty), i),
    ensures
        effective_zombie(zombies, level, ty) == zombie_applied(
            level.zombie_overrides->0@[i].1,
            zombies.stats_of(ty),
        ),
{
    lemma_first_with_key(level.zombie_overrides->0@, zombie_key(ty), i);
}

/// Law: a zombie kind that the level's override table does not list keeps
/// its catalog entry.
pub proof fn lemma_effective_zombie_without_override(zombies: ZombiesCatalog, level: LevelDef, ty: ZombieType)
    requires
        level.zombie_overrides matches Some(m) ==> forall|j: int|
            0 <= j < m@.len() ==> (#[trigger] m@[j]).0@ != zombie_key(ty),
    ensures
        effective_zombie(zombies, level, ty) == zombies.stats_of(ty),
{
}

/// Law: a plant kind's numbers in a level are its catalog entry merged with
/// the override the level lists under the kind's key (the first pair with
/// that key).
pub proof fn lemma_effective_plant_from_table(plants: PlantsCatalog, level: LevelDef, ty: PlantType, i: int)
    requires
        level.plant_overrides is Some,
        is_first_with_key(level.plant_overrides->0@, plant_key(ty), i),
    ensures
        effective_plant(plants, level, ty) == plant_applied(level.plant_overrides->0@[i].1, plants.stats_of(ty)),
{
    lemma_first_with_key(level.plant_overrides->0@, plant_key(ty), i);
}

/// Law: a plant kind that the level's override table does not list keeps
/// its catalog entry.
pub proof fn lemma_effective_plant_without_override(plants: PlantsCatalog, level: LevelDef, ty: PlantType)
    requires
        level.plant_overrides matches Some(m) ==> forall|j: int|
            0 <= j < m@.len() ==> (#[trigger] m@[j]).0@ != plant_key(ty),
    ensures
        effective_plant(plants, level, ty) == plants.stats_of(ty),
{
}

} // verus!
