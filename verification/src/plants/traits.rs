//! Plant trait tags and the check of the fields that go with them.

use vstd::prelude::*;

use crate::float_bits::F32Bits;

use super::stats::{PlantArchetypeStats, PlantConfigError};

verus! {

/// A plant trait tag, as the gameplay systems read it.
#[derive(Clone, Copy, Debug, PartialEq, Eq, Hash, Structural)]
pub enum PlantTrait {
    /// Low: can be vaulted over, does not stop pole vaulters.
    LowProfile,
    /// Nocturnal: sleeps in daytime levels.
    Night,
    /// Its attacks pass through every zombie in the lane.
    Pierce,
    /// Kills outright, ignoring armor, when its damage exceeds the body's hp.
    Ash,
    /// Slows the zombies it hits (see `slow_duration` / `slow_factor`).
    Slow,
    /// Its look changes at hp thresholds.
    HealthSegmented,
    /// Hides and stops attacking when a zombie is close.
    Scaredy,
    /// Hypnotizes the zombie that eats it.
    Hypnotize,
    /// Freezes the zombies in its range.
    Freeze,
    /// Leaves an unplantable crater after exploding.
    Crater,
}

/// The first problem of the slow-related fields: with the `Slow` trait both
/// `slow_duration > 0` and `0 < slow_factor < 1` must be set; without it
/// neither may be.
pub open spec fn slow_fields_problem(s: PlantArchetypeStats) -> Option<PlantConfigError> {
    let has_slow = s.traits@.contains(PlantTrait::Slow);
    match (has_slow, s.slow_duration, s.slow_factor) {
        (true, Some(duration), Some(factor)) => {
            if !(F32Bits(0).ieee_lt(factor) && factor.ieee_lt(F32Bits(0x3F80_0000))) {
                Some(PlantConfigError::SlowFactorOutOfRange)
            } else if duration.ieee_le(F32Bits(0)) {
                Some(PlantConfigError::NonPositiveSlowDuration)
            } else {
                None
            }
        },
        (true, _, _) => Some(PlantConfigError::SlowFieldsMissing),
        (false, None, None) => None,
        (false, _, _) => Some(PlantConfigError::SlowFieldsWithoutTrait),
    }
}

/// `traits` contains `t`.
pub fn traits_contain(traits: &Vec<PlantTrait>, t: PlantTrait) -> (r: bool)
    ensures
        r == traits@.contains(t),
{
    let mut i: usize = 0;
    while i < traits.len()
        invariant
            i <= traits.len(),
            forall|j: int| 0 <= j < i ==> traits@[j] != t,
        decreases traits.len() - i,
    {
        if traits[i] == t {
            return true;
        }
        i += 1;
    }
    false
}

/// Checks that the `Slow` trait and the `slow_duration` / `slow_factor` fields agree.
pub fn validate_trait_fields(_key: &str, stats: &PlantArchetypeStats) -> (r: Result<(), PlantConfigError>)
    ensures
        r == match slow_fields_problem(*stats) {
            Some(e) => Err(e),
            None => Ok(()),
        },
{
    let has_slow = traits_contain(&stats.traits, PlantTrait::Slow);
    match (has_slow, stats.slow_duration, stats.slow_factor) {
        (true, Some(duration), Some(factor)) => {
            if !(factor.greater_than(&F32Bits::zero()) && factor.less_than(&F32Bits::one())) {
                return Err(PlantConfigError::SlowFactorOutOfRange);
            }
            if duration.at_most(&F32Bits::zero()) {
                return Err(PlantConfigError::NonPositiveSlowDuration);
            }
            Ok(())
        },
        (true, _, _) => Err(PlantConfigError::SlowFieldsMissing),
        (false, None, None) => Ok(()),
        (false, _, _) => Err(PlantConfigError::SlowFieldsWithoutTrait),
    }
}


/// The slow-field check for an entry that passes it: a bad entry stops the
/// game, so it is no input of this function (see [`validate_trait_fields`]
/// for the check that reports it).
pub fn require_valid_trait_fields(key: &str, stats: &PlantArchetypeStats)
    requires
        slow_fields_problem(*stats) is None,
{
    let checked = validate_trait_fields(key, stats);
    assert(checked is Ok);
}

} // verus!
