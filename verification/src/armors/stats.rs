//! One armor kind's numbers, the per-level override of them, and their check.

use vstd::prelude::*;

use crate::float_bits::F32Bits;

use super::types::ArmorType;

verus! {

/// Armor tier: tier 1 (headwear) must be broken first by every attack; tier 2
/// (shields) can be bypassed by lobbed, fume and spike attacks.
#[derive(Clone, Copy, Debug, PartialEq, Eq, Structural)]
pub enum ArmorTier {
    Tier1,
    Tier2,
}

/// One armor kind's entry in the armor catalog.
#[derive(Clone, Debug, PartialEq, Eq)]
pub struct ArmorArchetypeStats {
    pub tier: ArmorTier,
    /// Hit points (an `f32`).
    pub hp: F32Bits,
    pub sprite_dir: String,
}

/// A level's override of one armor kind: only `hp` may be replaced.
#[derive(Clone, Copy, Debug, PartialEq, Eq, Default, Structural)]
pub struct ArmorArchetypeOverride {
    pub hp: Option<F32Bits>,
}

/// What is wrong with an armor entry.
#[derive(Clone, Copy, Debug, PartialEq, Eq, Structural)]
pub enum ArmorConfigError {
    /// `hp <= 0`.
    NonPositiveHp,
    /// `sprite_dir` is empty.
    EmptySpriteDir,
}

/// The stats an override gives: each field the override sets replaces the base's.
pub open spec fn armor_applied(ov: ArmorArchetypeOverride, base: ArmorArchetypeStats) -> ArmorArchetypeStats {
    ArmorArchetypeStats {
        tier: base.tier,
        hp: match ov.hp {
            Some(v) => v,
            None => base.hp,
        },
        sprite_dir: base.sprite_dir,
    }
}

/// The first problem of an armor entry, checks taken in order.
pub open spec fn armor_entry_problem(stats: ArmorArchetypeStats) -> Option<ArmorConfigError> {
    if stats.hp.ieee_le(F32Bits(0)) {
        Some(ArmorConfigError::NonPositiveHp)
    } else if stats.sprite_dir@.len() == 0 {
        Some(ArmorConfigError::EmptySpriteDir)
    } else {
        None
    }
}

/// `Ok(())` for no problem, else `Err` of the first one.
pub open spec fn problem_to_result<E>(p: Option<E>) -> Result<(), E> {
    match p {
        Some(e) => Err(e),
        None => Ok(()),
    }
}

impl ArmorArchetypeStats {
    /// A copy equal to `self`.
    pub fn duplicate(&self) -> (r: ArmorArchetypeStats)
        ensures
            r == *self,
    {
        ArmorArchetypeStats { tier: self.tier, hp: self.hp, sprite_dir: self.sprite_dir.clone() }
    }
}

impl ArmorArchetypeOverride {
    /// The level's effective armor stats: `base` with the fields this override sets.
    pub fn apply_to(&self, base: &ArmorArchetypeStats) -> (r: ArmorArchetypeStats)
        ensures
            r == armor_applied(*self, *base),
    {
        let mut s = base.duplicate();
        if let Some(v) = self.hp {
            s.hp = v;
        }
        s
    }
}

/// Checks an armor entry (a catalog entry or a level's merged one).
pub fn validate_armor_archetype(_ty: ArmorType, stats: &ArmorArchetypeStats) -> (r: Result<
    (),
    ArmorConfigError,
>)
    ensures
        r == problem_to_result(armor_entry_problem(*stats)),
{
    if stats.hp.at_most(&F32Bits::zero()) {
        return Err(ArmorConfigError::NonPositiveHp);
    }
    if stats.sprite_dir.as_str().is_empty() {
        return Err(ArmorConfigError::EmptySpriteDir);
    }
    Ok(())
}

/// Law: an override that sets nothing leaves the stats as they are.
pub proof fn lemma_armor_empty_override_is_identity(base: ArmorArchetypeStats)
    ensures
        armor_applied(ArmorArchetypeOverride { hp: None }, base) == base,
{
}

/// Law: applying the same override twice gives what applying it once gives.
pub proof fn lemma_armor_override_idempotent(ov: ArmorArchetypeOverride, base: ArmorArchetypeStats)
    ensures
        armor_applied(ov, armor_applied(ov, base)) == armor_applied(ov, base),
{
}


/// The armor entry check for an entry that passes it: a bad entry stops the
/// game, so it is no input of this function (see [`validate_armor_archetype`]
/// for the check that reports it).
pub fn validate_armor_entry(ty: ArmorType, stats: &ArmorArchetypeStats)
    requires
        armor_entry_problem(*stats) is None,
{
    let checked = validate_armor_archetype(ty, stats);
    assert(checked is Ok);
}


/// Law: an armor override's `hp`, when set, is the merged `hp`; the tier and
/// sprite folder stay.
pub proof fn lemma_armor_override_fields(ov: ArmorArchetypeOverride, base: ArmorArchetypeStats)
    ensures
        ov.hp matches Some(v) ==> armor_applied(ov, base).hp == v,
        ov.hp is None ==> armor_applied(ov, base).hp == base.hp,
        armor_applied(ov, base).tier == base.tier,
        armor_applied(ov, base).sprite_dir == base.sprite_dir,
{
}

} // verus!
