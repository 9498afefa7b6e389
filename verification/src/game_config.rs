//! Global gameplay numbers (`game_config.ron`) and their check.

use vstd::prelude::*;

use crate::float_bits::F32Bits;

verus! {

/// Global gameplay numbers; all three are `f32` values.
#[derive(Clone, Copy, Debug, PartialEq, Eq, Structural)]
pub struct GameConfig {
    /// Body hp ratio at or below which a zombie loses its arm (about 2/3).
    pub hp_threshold_high: F32Bits,
    /// Body hp ratio at or below which a zombie is dying (about 1/3).
    pub hp_threshold_low: F32Bits,
    /// Body hp a dying zombie loses per second.
    pub dying_drain_hp_per_sec: F32Bits,
}

/// What is wrong with the global numbers.
#[derive(Clone, Copy, Debug, PartialEq, Eq, Structural)]
pub enum GameConfigError {
    /// Not `hp_threshold_low > 0 && hp_threshold_high < 1`.
    ThresholdOutOfRange,
    /// Not `hp_threshold_low < hp_threshold_high`.
    ThresholdsNotOrdered,
    /// Not `dying_drain_hp_per_sec > 0`.
    NonPositiveDrain,
}

/// The first problem of the global numbers, checks taken in order.
pub open spec fn game_config_problem(c: GameConfig) -> Option<GameConfigError> {
    if !(F32Bits(0).ieee_lt(c.hp_threshold_low) && c.hp_threshold_high.ieee_lt(F32Bits(0x3F80_0000))) {
        Some(GameConfigError::ThresholdOutOfRange)
    } else if !c.hp_threshold_low.ieee_lt(c.hp_threshold_high) {
        Some(GameConfigError::ThresholdsNotOrdered)
    } else if !F32Bits(0).ieee_lt(c.dying_drain_hp_per_sec) {
        Some(GameConfigError::NonPositiveDrain)
    } else {
        None
    }
}

impl GameConfig {
    /// Checks the thresholds lie in `(0, 1)` in order, and the drain is positive.
    pub fn validate(&self) -> (r: Result<(), GameConfigError>)
        ensures
            r == match game_config_problem(*self) {
                Some(e) => Err(e),
                None => Ok(()),
            },
    {
        if !(self.hp_threshold_low.greater_than(&F32Bits::zero()) && self.hp_threshold_high.less_than(
            &F32Bits::one(),
        )) {
            return Err(GameConfigError::ThresholdOutOfRange);
        }
        if !self.hp_threshold_low.less_than(&self.hp_threshold_high) {
            return Err(GameConfigError::ThresholdsNotOrdered);
        }
        if !self.dying_drain_hp_per_sec.greater_than(&F32Bits::zero()) {
            return Err(GameConfigError::NonPositiveDrain);
        }
        Ok(())
    }

    /// The check of the global numbers for numbers that pass it: bad numbers
    /// stop the game, so they are no input of this function (see
    /// [`Self::validate`] for the check that reports them).
    pub fn require_valid(&self)
        requires
            game_config_problem(*self) is None,
    {
        let checked = self.validate();
        assert(checked is Ok);
    }
}

} // verus!
