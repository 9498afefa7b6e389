//! One plant kind's numbers, the per-level override of them, and their check.

use vstd::prelude::*;

use crate::float_bits::{F32Bits, F64Bits};

use super::targeting::PlantTargeting;
use super::traits::{slow_fields_problem, traits_contain, validate_trait_fields, PlantTrait};
use super::types::PlantType;

verus! {

/// One plant kind's entry in the plant catalog; kinds leave the fields they
/// do not use at their zero values.  Fields noted as `f32`/`f64` hold those
/// values by their bit patterns.
#[derive(Debug, PartialEq)]
pub struct PlantArchetypeStats {
    /// `f32`.
    pub health: F32Bits,
    pub sun_cost: u32,
    /// `f64`.
    pub cooldown_secs: F64Bits,
    pub targeting: Option<PlantTargeting>,
    /// `f64`.
    pub shoot_interval: F64Bits,
    /// `f32`.
    pub damage: F32Bits,
    /// `f32`.
    pub damage_per_projectile: F32Bits,
    pub projectiles_per_volley: u32,
    /// `f64`.
    pub produce_interval: F64Bits,
    pub sun_yield: u32,
    pub sun_yield_small: u32,
    pub sun_yield_mature: u32,
    /// `f64`.
    pub mature_after_secs: F64Bits,
    /// `(f32, f32)`.
    pub first_produce_after_secs: (F32Bits, F32Bits),
    /// `f32`.
    pub explosion_damage: F32Bits,
    /// `f32`.
    pub explosion_radius_cells: F32Bits,
    /// `f64`.
    pub fuse_duration: F64Bits,
    /// `(f32, f32)`.
    pub emerge_after_secs: (F32Bits, F32Bits),
    pub swallow_instakill: bool,
    /// `f64`.
    pub digest_duration_secs: F64Bits,
    /// Seconds a grave buster needs to eat a grave (`f64`).
    pub grave_digest_secs: F64Bits,
    /// `f32`.
    pub swallow_fail_damage: F32Bits,
    pub traits: Vec<PlantTrait>,
    /// `f32`.
    pub slow_duration: Option<F32Bits>,
    /// `f32`.
    pub slow_factor: Option<F32Bits>,
    /// `f32`.
    pub cracked1_threshold: F32Bits,
    /// `f32`.
    pub cracked2_threshold: F32Bits,
    pub shoot_timer_repeating: bool,
    pub sprite_dir: String,
    pub idle_frames: u32,
    pub shoot_frames: u32,
    /// `(f32, f32, f32)`.
    pub placeholder_rgb: (F32Bits, F32Bits, F32Bits),
    /// `(f32, f32)`.
    pub size: (F32Bits, F32Bits),
    /// `f32`.
    pub spawn_z: F32Bits,
}

/// A level's override of one plant kind: each field set replaces the global one.
#[derive(Clone, Debug, PartialEq, Default)]
pub struct PlantArchetypeOverride {
    pub health: Option<F32Bits>,
    pub sun_cost: Option<u32>,
    pub cooldown_secs: Option<F64Bits>,
    pub targeting: Option<PlantTargeting>,
    pub shoot_interval: Option<F64Bits>,
    pub damage: Option<F32Bits>,
    pub damage_per_projectile: Option<F32Bits>,
    pub projectiles_per_volley: Option<u32>,
    pub produce_interval: Option<F64Bits>,
    pub sun_yield: Option<u32>,
    pub explosion_damage: Option<F32Bits>,
    pub slow_duration: Option<F32Bits>,
    pub slow_factor: Option<F32Bits>,
    pub grave_digest_secs: Option<F64Bits>,
    pub traits: Option<Vec<PlantTrait>>,
}

/// The targeting a plant kind must have.
#[derive(Clone, Copy, Debug, PartialEq, Eq, Structural)]
pub enum TargetingRequirement {
    /// `LaneForward`.
    LaneForward,
    /// `ForwardRange(c)` with `c` finite and positive.
    PositiveForwardRange,
    /// `RowRadius(c)` with `c` finite and positive.
    PositiveRowRadius,
    /// `Area3x3`.
    Area3x3,
}

/// What is wrong with a plant entry.
#[derive(Clone, Copy, Debug, PartialEq, Eq, Structural)]
pub enum PlantConfigError {
    /// `health <= 0`.
    NonPositiveHealth,
    /// `cooldown_secs < 0`.
    NegativeCooldown,
    /// `sprite_dir` is empty.
    EmptySpriteDir,
    /// The kind needs a targeting and has none.
    TargetingMissing(TargetingRequirement),
    /// The kind's targeting is not the one it needs.
    TargetingMismatch(TargetingRequirement),
    /// The kind must not have a targeting.
    TargetingForbidden,
    /// An exploding kind with `explosion_damage <= 0`.
    NonPositiveExplosionDamage,
    /// A locally exploding kind whose `explosion_radius_cells` is not finite and positive.
    InvalidExplosionRadius,
    /// `grave_digest_secs > 0` on a kind that does not eat graves.
    GraveDigestForbidden,
    /// `Slow` with `slow_factor` outside `(0, 1)`.
    SlowFactorOutOfRange,
    /// `Slow` with `slow_duration <= 0`.
    NonPositiveSlowDuration,
    /// `Slow` without both `slow_duration` and `slow_factor`.
    SlowFieldsMissing,
    /// `slow_duration` or `slow_factor` without the `Slow` trait.
    SlowFieldsWithoutTrait,
}

/// `s` with its trait list replaced by `traits`.
pub open spec fn with_traits(s: PlantArchetypeStats, traits: Vec<PlantTrait>) -> PlantArchetypeStats {
    PlantArchetypeStats { traits: traits, ..s }
}

/// `a` and `b` hold the same values (their trait lists as sequences).
pub open spec fn plant_stats_same(a: PlantArchetypeStats, b: PlantArchetypeStats) -> bool {
    a.traits@ == b.traits@ && a == with_traits(b, a.traits)
}

/// The stats an override gives: each field the override sets replaces the base's.
pub open spec fn plant_applied(ov: PlantArchetypeOverride, base: PlantArchetypeStats) -> PlantArchetypeStats {
    PlantArchetypeStats {
        health: match ov.health { Some(v) => v, None => base.health },
        sun_cost: match ov.sun_cost { Some(v) => v, None => base.sun_cost },
        cooldown_secs: match ov.cooldown_secs { Some(v) => v, None => base.cooldown_secs },
        shoot_interval: match ov.shoot_interval { Some(v) => v, None => base.shoot_interval },
        damage: match ov.damage { Some(v) => v, None => base.damage },
        damage_per_projectile: match ov.damage_per_projectile {
            Some(v) => v,
            None => base.damage_per_projectile,
        },
        projectiles_per_volley: match ov.projectiles_per_volley {
            Some(v) => v,
            None => base.projectiles_per_volley,
        },
        produce_interval: match ov.produce_interval { Some(v) => v, None => base.produce_interval },
        sun_yield: match ov.sun_yield { Some(v) => v, None => base.sun_yield },
        explosion_damage: match ov.explosion_damage { Some(v) => v, None => base.explosion_damage },
        grave_digest_secs: match ov.grave_digest_secs {
            Some(v) => v,
            None => base.grave_digest_secs,
        },
        slow_duration: match ov.slow_duration { Some(v) => Some(v), None => base.slow_duration },
        slow_factor: match ov.slow_factor { Some(v) => Some(v), None => base.slow_factor },
        traits: match ov.traits { Some(v) => v, None => base.traits },
        targeting: match ov.targeting { Some(t) => Some(t), None => base.targeting },
        ..base
    }
}

/// The targeting a kind must have; `None` for kinds that must have none.
pub open spec fn plant_targeting_requirement(ty: PlantType) -> Option<TargetingRequirement> {
    match ty {
        PlantType::Peashooter | PlantType::SnowPea | PlantType::Repeater => Some(
            TargetingRequirement::LaneForward,
        ),
        PlantType::PuffShroom | PlantType::Chomper => Some(TargetingRequirement::PositiveForwardRange),
        PlantType::PotatoMine => Some(TargetingRequirement::PositiveRowRadius),
        PlantType::CherryBomb => Some(TargetingRequirement::Area3x3),
        PlantType::Sunflower | PlantType::WallNut | PlantType::SunShroom => None,
    }
}

/// A number of cells is finite and positive.
pub open spec fn positive_finite_cells(c: F32Bits) -> bool {
    c.ieee_is_finite() && F32Bits(0).ieee_lt(c)
}

/// `t` is a targeting that `req` accepts.
pub open spec fn targeting_meets(req: TargetingRequirement, t: PlantTargeting) -> bool {
    match req {
        TargetingRequirement::LaneForward => t == PlantTargeting::LaneForward,
        TargetingRequirement::PositiveForwardRange => t matches PlantTargeting::ForwardRange(c)
            && positive_finite_cells(c),
        TargetingRequirement::PositiveRowRadius => t matches PlantTargeting::RowRadius(c)
            && positive_finite_cells(c),
        TargetingRequirement::Area3x3 => t == PlantTargeting::Area3x3,
    }
}

/// The targeting problem of a kind's entry, if any.
pub open spec fn targeting_problem(ty: PlantType, t: Option<PlantTargeting>) -> Option<PlantConfigError> {
    match plant_targeting_requirement(ty) {
        Some(req) => match t {
            Some(found) => if targeting_meets(req, found) {
                None
            } else {
                Some(PlantConfigError::TargetingMismatch(req))
            },
            None => Some(PlantConfigError::TargetingMissing(req)),
        },
        None => if t is Some {
            Some(PlantConfigError::TargetingForbidden)
        } else {
            None
        },
    }
}

/// The first problem of a plant entry, checks taken in order.
pub open spec fn plant_entry_problem(ty: PlantType, s: PlantArchetypeStats) -> Option<PlantConfigError> {
    if s.health.ieee_le(F32Bits(0)) {
        Some(PlantConfigError::NonPositiveHealth)
    } else if s.cooldown_secs.ieee_lt(F64Bits(0)) {
        Some(PlantConfigError::NegativeCooldown)
    } else if s.sprite_dir@.len() == 0 {
        Some(PlantConfigError::EmptySpriteDir)
    } else if targeting_problem(ty, s.targeting) is Some {
        targeting_problem(ty, s.targeting)
    } else if ty == PlantType::CherryBomb && s.explosion_damage.ieee_le(F32Bits(0)) {
        Some(PlantConfigError::NonPositiveExplosionDamage)
    } else if ty == PlantType::CherryBomb && !positive_finite_cells(s.explosion_radius_cells) {
        Some(PlantConfigError::InvalidExplosionRadius)
    } else if F64Bits(0).ieee_lt(s.grave_digest_secs) {
        Some(PlantConfigError::GraveDigestForbidden)
    } else {
        slow_fields_problem(s)
    }
}

/// A copy of a trait list with the same elements.
pub fn copy_traits(v: &Vec<PlantTrait>) -> (r: Vec<PlantTrait>)
    ensures
        r@ == v@,
{
    let mut out: Vec<PlantTrait> = Vec::new();
    let mut i: usize = 0;
    while i < v.len()
        invariant
            i <= v.len(),
            out@ == v@.subrange(0, i as int),
        decreases v.len() - i,
    {
        out.push(v[i]);
        i += 1;
    }
    assert(out@ =~= v@);
    out
}

impl PlantArchetypeStats {
    /// A copy holding the same values.
    pub fn duplicate(&self) -> (r: PlantArchetypeStats)
        ensures
            plant_stats_same(r, *self),
    {
        PlantArchetypeStats {
            health: self.health,
            sun_cost: self.sun_cost,
            cooldown_secs: self.cooldown_secs,
            targeting: self.targeting,
            shoot_interval: self.shoot_interval,
            damage: self.damage,
            damage_per_projectile: self.damage_per_projectile,
            projectiles_per_volley: self.projectiles_per_volley,
            produce_interval: self.produce_interval,
            sun_yield: self.sun_yield,
            sun_yield_small: self.sun_yield_small,
            sun_yield_mature: self.sun_yield_mature,
            mature_after_secs: self.mature_after_secs,
            first_produce_after_secs: self.first_produce_after_secs,
            explosion_damage: self.explosion_damage,
            explosion_radius_cells: self.explosion_radius_cells,
            fuse_duration: self.fuse_duration,
            emerge_after_secs: self.emerge_after_secs,
            swallow_instakill: self.swallow_instakill,
            digest_duration_secs: self.digest_duration_secs,
            grave_digest_secs: self.grave_digest_secs,
            swallow_fail_damage: self.swallow_fail_damage,
            traits: copy_traits(&self.traits),
            slow_duration: self.slow_duration,
            slow_factor: self.slow_factor,
            cracked1_threshold: self.cracked1_threshold,
            cracked2_threshold: self.cracked2_threshold,
            shoot_timer_repeating: self.shoot_timer_repeating,
            sprite_dir: self.sprite_dir.clone(),
            idle_frames: self.idle_frames,
            shoot_frames: self.shoot_frames,
            placeholder_rgb: self.placeholder_rgb,
            size: self.size,
            spawn_z: self.spawn_z,
        }
    }

    /// The plant has trait `trait_`.
    pub fn has_trait(&self, trait_: PlantTrait) -> (r: bool)
        ensures
            r == self.traits@.contains(trait_),
    {
        traits_contain(&self.traits, trait_)
    }
}

impl PlantArchetypeOverride {
    /// The level's effective stats: `base` with the fields this override sets.
    pub fn apply_to(&self, base: &PlantArchetypeStats) -> (r: PlantArchetypeStats)
        ensures
            plant_stats_same(r, plant_applied(*self, *base)),
    {
        let traits = match &self.traits {
            Some(t) => copy_traits(t),
            None => copy_traits(&base.traits),
        };
        PlantArchetypeStats {
            health: or_base(self.health, base.health),
            sun_cost: or_base(self.sun_cost, base.sun_cost),
            cooldown_secs: or_base(self.cooldown_secs, base.cooldown_secs),
            targeting: or_base_opt(self.targeting, base.targeting),
            shoot_interval: or_base(self.shoot_interval, base.shoot_interval),
            damage: or_base(self.damage, base.damage),
            damage_per_projectile: or_base(self.damage_per_projectile, base.damage_per_projectile),
            projectiles_per_volley: or_base(self.projectiles_per_volley, base.projectiles_per_volley),
            produce_interval: or_base(self.produce_interval, base.produce_interval),
            sun_yield: or_base(self.sun_yield, base.sun_yield),
            sun_yield_small: base.sun_yield_small,
            sun_yield_mature: base.sun_yield_mature,
            mature_after_secs: base.mature_after_secs,
            first_produce_after_secs: base.first_produce_after_secs,
            explosion_damage: or_base(self.explosion_damage, base.explosion_damage),
            explosion_radius_cells: base.explosion_radius_cells,
            fuse_duration: base.fuse_duration,
            emerge_after_secs: base.emerge_after_secs,
            swallow_instakill: base.swallow_instakill,
            digest_duration_secs: base.digest_duration_secs,
            grave_digest_secs: or_base(self.grave_digest_secs, base.grave_digest_secs),
            swallow_fail_damage: base.swallow_fail_damage,
            traits: traits,
            slow_duration: or_base_opt(self.slow_duration, base.slow_duration),
            slow_factor: or_base_opt(self.slow_factor, base.slow_factor),
            cracked1_threshold: base.cracked1_threshold,
            cracked2_threshold: base.cracked2_threshold,
            shoot_timer_repeating: base.shoot_timer_repeating,
            sprite_dir: base.sprite_dir.clone(),
            idle_frames: base.idle_frames,
            shoot_frames: base.shoot_frames,
            placeholder_rgb: base.placeholder_rgb,
            size: base.size,
            spawn_z: base.spawn_z,
        }
    }
}

/// The override's value where it has one, else the base's.
fn or_base<T: Copy>(ov: Option<T>, base: T) -> (r: T)
    ensures
        r == match ov {
            Some(v) => v,
            None => base,
        },
{
    match ov {
        Some(v) => v,
        None => base,
    }
}

/// Like [`or_base`] for a field that is itself optional.
fn or_base_opt<T: Copy>(ov: Option<T>, base: Option<T>) -> (r: Option<T>)
    ensures
        r == match ov {
            Some(v) => Some(v),
            None => base,
        },
{
    match ov {
        Some(v) => Some(v),
        None => base,
    }
}

/// `c` is a finite, positive number of cells.
fn is_positive_finite(c: F32Bits) -> (r: bool)
    ensures
        r == positive_finite_cells(c),
{
    c.is_finite() && c.greater_than(&F32Bits::zero())
}

/// The targeting check of one kind's entry.
fn check_targeting(ty: PlantType, targeting: Option<PlantTargeting>) -> (r: Result<(), PlantConfigError>)
    ensures
        r == match targeting_problem(ty, targeting) {
            Some(e) => Err(e),
            None => Ok(()),
        },
{
    let req = match ty {
        PlantType::Peashooter | PlantType::SnowPea | PlantType::Repeater => TargetingRequirement::LaneForward,
        PlantType::PuffShroom | PlantType::Chomper => TargetingRequirement::PositiveForwardRange,
        PlantType::PotatoMine => TargetingRequirement::PositiveRowRadius,
        PlantType::CherryBomb => TargetingRequirement::Area3x3,
        PlantType::Sunflower | PlantType::WallNut | PlantType::SunShroom => {
            if targeting.is_some() {
                return Err(PlantConfigError::TargetingForbidden);
            }
            return Ok(());
        },
    };
    match targeting {
        None => Err(PlantConfigError::TargetingMissing(req)),
        Some(t) => {
            let ok = match req {
                TargetingRequirement::LaneForward => t == PlantTargeting::LaneForward,
                TargetingRequirement::PositiveForwardRange => match t {
                    PlantTargeting::ForwardRange(c) => is_positive_finite(c),
                    _ => false,
                },
                TargetingRequirement::PositiveRowRadius => match t {
                    PlantTargeting::RowRadius(c) => is_positive_finite(c),
                    _ => false,
                },
                TargetingRequirement::Area3x3 => t == PlantTargeting::Area3x3,
            };
            if ok {
                Ok(())
            } else {
                Err(PlantConfigError::TargetingMismatch(req))
            }
        },
    }
}

/// Checks a plant entry (a catalog entry or a level's merged one).
pub fn validate_plant_archetype(ty: PlantType, stats: &PlantArchetypeStats) -> (r: Result<(), PlantConfigError>)
    ensures
        r == match plant_entry_problem(ty, *stats) {
            Some(e) => Err(e),
            None => Ok(()),
        },
{
    if stats.health.at_most(&F32Bits::zero()) {
        return Err(PlantConfigError::NonPositiveHealth);
    }
    if stats.cooldown_secs.less_than(&F64Bits::zero()) {
        return Err(PlantConfigError::NegativeCooldown);
    }
    if stats.sprite_dir.as_str().is_empty() {
        return Err(PlantConfigError::EmptySpriteDir);
    }
    check_targeting(ty, stats.targeting)?;
    if ty == PlantType::CherryBomb {
        if stats.explosion_damage.at_most(&F32Bits::zero()) {
            return Err(PlantConfigError::NonPositiveExplosionDamage);
        }
        if !is_positive_finite(stats.explosion_radius_cells) {
            return Err(PlantConfigError::InvalidExplosionRadius);
        }
    }
    if stats.grave_digest_secs.greater_than(&F64Bits::zero()) {
        return Err(PlantConfigError::GraveDigestForbidden);
    }
    validate_trait_fields(ty.ron_key(), stats)
}

/// Law: applying the same override twice gives what applying it once gives.
pub proof fn lemma_plant_override_idempotent(ov: PlantArchetypeOverride, base: PlantArchetypeStats)
    ensures
        plant_applied(ov, plant_applied(ov, base)) == plant_applied(ov, base),
{
}

/// Law: an override that sets nothing leaves the stats as they are.
pub proof fn lemma_plant_empty_override_is_identity(base: PlantArchetypeStats)
    ensures
        plant_applied(
            PlantArchetypeOverride {
                health: None,
                sun_cost: None,
                cooldown_secs: None,
                targeting: None,
                shoot_interval: None,
                damage: None,
                damage_per_projectile: None,
                projectiles_per_volley: None,
                produce_interval: None,
                sun_yield: None,
                explosion_damage: None,
                slow_duration: None,
                slow_factor: None,
                grave_digest_secs: None,
                traits: None,
            },
            base,
        ) == base,
{
}

/// Entries holding the same values have the same problems.
pub proof fn lemma_same_plant_stats_same_problem(ty: PlantType, a: PlantArchetypeStats, b: PlantArchetypeStats)
    requires
        plant_stats_same(a, b),
    ensures
        plant_entry_problem(ty, a) == plant_entry_problem(ty, b),
{
    assert(a.traits@.contains(PlantTrait::Slow) == b.traits@.contains(PlantTrait::Slow));
}


/// The plant entry check for an entry that passes it: a bad entry stops the
/// game, so it is no input of this function (see [`validate_plant_archetype`]
/// for the check that reports it).
pub fn validate_plant_entry(ty: PlantType, stats: &PlantArchetypeStats)
    requires
        plant_entry_problem(ty, *stats) is None,
{
    let checked = validate_plant_archetype(ty, stats);
    assert(checked is Ok);
}


/// Law: each field a plant override sets is the merged value, each it leaves
/// unset keeps the base's value, and the fields no override covers stay.
pub proof fn lemma_plant_override_fields(ov: PlantArchetypeOverride, base: PlantArchetypeStats)
    ensures
        ov.health matches Some(v) ==> plant_applied(ov, base).health == v,
        ov.health is None ==> plant_applied(ov, base).health == base.health,
        ov.sun_cost matches Some(v) ==> plant_applied(ov, base).sun_cost == v,
        ov.sun_cost is None ==> plant_applied(ov, base).sun_cost == base.sun_cost,
        ov.cooldown_secs matches Some(v) ==> plant_applied(ov, base).cooldown_secs == v,
        ov.cooldown_secs is None ==> plant_applied(ov, base).cooldown_secs == base.cooldown_secs,
        ov.shoot_interval matches Some(v) ==> plant_applied(ov, base).shoot_interval == v,
        ov.shoot_interval is None ==> plant_applied(ov, base).shoot_interval == base.shoot_interval,
        ov.damage matches Some(v) ==> plant_applied(ov, base).damage == v,
        ov.damage is None ==> plant_applied(ov, base).damage == base.damage,
        ov.damage_per_projectile matches Some(v) ==> plant_applied(ov, base).damage_per_projectile == v,
        ov.damage_per_projectile is None ==> plant_applied(ov, base).damage_per_projectile == base.damage_per_projectile,
        ov.projectiles_per_volley matches Some(v) ==> plant_applied(ov, base).projectiles_per_volley == v,
        ov.projectiles_per_volley is None ==> plant_applied(ov, base).projectiles_per_volley == base.projectiles_per_volley,
        ov.produce_interval matches Some(v) ==> plant_applied(ov, base).produce_interval == v,
        ov.produce_interval is None ==> plant_applied(ov, base).produce_interval == base.produce_interval,
        ov.sun_yield matches Some(v) ==> plant_applied(ov, base).sun_yield == v,
        ov.sun_yield is None ==> plant_applied(ov, base).sun_yield == base.sun_yield,
        ov.explosion_damage matches Some(v) ==> plant_applied(ov, base).explosion_damage == v,
        ov.explosion_damage is None ==> plant_applied(ov, base).explosion_damage == base.explosion_damage,
        ov.grave_digest_secs matches Some(v) ==> plant_applied(ov, base).grave_digest_secs == v,
        ov.grave_digest_secs is None ==> plant_applied(ov, base).grave_digest_secs == base.grave_digest_secs,
        ov.traits matches Some(v) ==> plant_applied(ov, base).traits == v,
        ov.traits is None ==> plant_applied(ov, base).traits == base.traits,
        ov.targeting matches Some(v) ==> plant_applied(ov, base).targeting == Some(v),
        ov.targeting is None ==> plant_applied(ov, base).targeting == base.targeting,
        ov.slow_duration matches Some(v) ==> plant_applied(ov, base).slow_duration == Some(v),
        ov.slow_duration is None ==> plant_applied(ov, base).slow_duration == base.slow_duration,
        ov.slow_factor matches Some(v) ==> plant_applied(ov, base).slow_factor == Some(v),
        ov.slow_factor is None ==> plant_applied(ov, base).slow_factor == base.slow_factor,
        plant_applied(ov, base).sun_yield_small == base.sun_yield_small,
        plant_applied(ov, base).sun_yield_mature == base.sun_yield_mature,
        plant_applied(ov, base).mature_after_secs == base.mature_after_secs,
        plant_applied(ov, base).first_produce_after_secs == base.first_produce_after_secs,
        plant_applied(ov, base).explosion_radius_cells == base.explosion_radius_cells,
        plant_applied(ov, base).fuse_duration == base.fuse_duration,
        plant_applied(ov, base).emerge_after_secs == base.emerge_after_secs,
        plant_applied(ov, base).swallow_instakill == base.swallow_instakill,
        plant_applied(ov, base).digest_duration_secs == base.digest_duration_secs,
        plant_applied(ov, base).swallow_fail_damage == base.swallow_fail_damage,
        plant_applied(ov, base).cracked1_threshold == base.cracked1_threshold,
        plant_applied(ov, base).cracked2_threshold == base.cracked2_threshold,
        plant_applied(ov, base).shoot_timer_repeating == base.shoot_timer_repeating,
        plant_applied(ov, base).sprite_dir == base.sprite_dir,
        plant_applied(ov, base).idle_frames == base.idle_frames,
        plant_applied(ov, base).shoot_frames == base.shoot_frames,
        plant_applied(ov, base).placeholder_rgb == base.placeholder_rgb,
        plant_applied(ov, base).size == base.size,
        plant_applied(ov, base).spawn_z == base.spawn_z,
{
}

} // verus!
