//! A zombie's body hp stages: full, arm lost, dying (head lost).

use vstd::prelude::*;

use crate::float_bits::F32Bits;
use crate::game_config::GameConfig;

use super::types::ZombieType;

verus! {

/// Body hp stage; stages only ever advance (there is no healing).
#[derive(Clone, Copy, Debug, PartialEq, Eq, Default, Structural)]
pub enum ZombieHpStage {
    /// Ratio in `(threshold_high, 1]`.
    #[default]
    Full,
    /// Arm lost: ratio in `(threshold_low, threshold_high]`.
    LostArm,
    /// Dying (head lost): ratio in `[0, threshold_low]`.
    Dying,
}

/// A zombie's body hp (armor hp is separate); `current` and `max` are `f32` values.
#[derive(Clone, Copy, Debug, PartialEq, Eq, Structural)]
pub struct ZombieBodyHp {
    pub ty: ZombieType,
    pub current: F32Bits,
    pub max: F32Bits,
    pub stage: ZombieHpStage,
}

/// Order of the stages.
pub open spec fn stage_rank(s: ZombieHpStage) -> int {
    match s {
        ZombieHpStage::Full => 0,
        ZombieHpStage::LostArm => 1,
        ZombieHpStage::Dying => 2,
    }
}

/// The stage after the body hp ratio becomes `ratio`: a full zombie at or
/// below the high threshold loses its arm, and a full or armless one at or
/// below the low threshold is dying; a dying zombie stays dying.
pub open spec fn next_stage(stage: ZombieHpStage, ratio: F32Bits, config: GameConfig) -> ZombieHpStage {
    if stage == ZombieHpStage::Dying {
        ZombieHpStage::Dying
    } else {
        let after_high = if stage == ZombieHpStage::Full && ratio.ieee_le(config.hp_threshold_high) {
            ZombieHpStage::LostArm
        } else {
            stage
        };
        if ratio.ieee_le(config.hp_threshold_low) {
            ZombieHpStage::Dying
        } else {
            after_high
        }
    }
}

impl ZombieBodyHp {
    /// A zombie at full body hp `max_body_hp`.
    pub fn new(ty: ZombieType, max_body_hp: F32Bits) -> (r: ZombieBodyHp)
        ensures
            r == (ZombieBodyHp { ty, current: max_body_hp, max: max_body_hp, stage: ZombieHpStage::Full }),
    {
        ZombieBodyHp { ty, current: max_body_hp, max: max_body_hp, stage: ZombieHpStage::Full }
    }

    /// Plants may target it: it is not dying.
    pub fn is_targetable_by_plants(&self) -> (r: bool)
        ensures
            r == (self.stage != ZombieHpStage::Dying),
    {
        self.stage != ZombieHpStage::Dying
    }
}

impl ZombieType {
    /// The kind follows the three-stage body hp rule (every current kind does).
    pub fn has_segmented_hp(self) -> (r: bool)
        ensures
            r,
    {
        match self {
            ZombieType::Zombie
            | ZombieType::FlagZombie
            | ZombieType::ConeheadZombie
            | ZombieType::PoleVaultingZombie
            | ZombieType::BucketheadZombie
            | ZombieType::NewspaperZombie
            | ZombieType::ScreenDoorZombie
            | ZombieType::FootballZombie
            | ZombieType::DancingZombie
            | ZombieType::BackupDancerZombie => true,
        }
    }
}

/// Advances `stage` for the new body hp ratio `ratio` (an `f32`); each
/// threshold triggers once, and the stage never goes back.
pub fn update_stage_after_hp_change(stage: &mut ZombieHpStage, ratio: F32Bits, config: &GameConfig)
    ensures
        *final(stage) == next_stage(*old(stage), ratio, *config),
{
    if *stage == ZombieHpStage::Dying {
        return;
    }
    if *stage == ZombieHpStage::Full && ratio.at_most(&config.hp_threshold_high) {
        *stage = ZombieHpStage::LostArm;
    }
    if (*stage == ZombieHpStage::Full || *stage == ZombieHpStage::LostArm) && ratio.at_most(
        &config.hp_threshold_low,
    ) {
        *stage = ZombieHpStage::Dying;
    }
}

/// Law: the stage never goes back, and a dying zombie stays dying.
pub proof fn lemma_stage_never_regresses(stage: ZombieHpStage, ratio: F32Bits, config: GameConfig)
    ensures
        stage_rank(next_stage(stage, ratio, config)) >= stage_rank(stage),
        stage == ZombieHpStage::Dying ==> next_stage(stage, ratio, config) == ZombieHpStage::Dying,
{
}

/// Law: updating twice with the same ratio is updating once.
pub proof fn lemma_stage_update_idempotent(stage: ZombieHpStage, ratio: F32Bits, config: GameConfig)
    ensures
        next_stage(next_stage(stage, ratio, config), ratio, config) == next_stage(stage, ratio, config),
{
}

} // verus!
