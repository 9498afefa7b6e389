use pvz_rust::float_bits::F32Bits;
use pvz_rust::game_config::{GameConfig, GameConfigError};
use pvz_rust::zombies::hp::{update_stage_after_hp_change, ZombieBodyHp, ZombieHpStage};
use pvz_rust::zombies::ZombieType;

fn bits(v: f32) -> F32Bits {
    F32Bits(v.to_bits())
}

fn test_config() -> GameConfig {
    GameConfig { hp_threshold_high: bits(0.667), hp_threshold_low: bits(0.333), dying_drain_hp_per_sec: bits(90.0) }
}

/// Body hp left over max, clamped to `[0, 1]`; zero when `max <= 0`.
fn hp_ratio(body: &ZombieBodyHp) -> f32 {
    let max = f32::from_bits(body.max.0);
    if max <= 0.0 {
        return 0.0;
    }
    (f32::from_bits(body.current.0) / max).clamp(0.0, 1.0)
}

/// Deals body damage, then lets the library advance the stage.
fn apply_body_damage(body: &mut ZombieBodyHp, damage: f32, config: &GameConfig) {
    if damage <= 0.0 {
        return;
    }
    let current = (f32::from_bits(body.current.0) - damage).max(0.0);
    body.current = bits(current);
    if !body.ty.has_segmented_hp() {
        return;
    }
    let ratio = hp_ratio(body);
    update_stage_after_hp_change(&mut body.stage, bits(ratio), config);
}

#[test]
fn first_cross_high_triggers_lost_arm_once() {
    let cfg = test_config();
    let mut body = ZombieBodyHp::new(ZombieType::Zombie, bits(270.0));
    apply_body_damage(&mut body, 91.0, &cfg);
    assert_eq!(body.stage, ZombieHpStage::LostArm);
    assert!(hp_ratio(&body) > f32::from_bits(cfg.hp_threshold_low.0));
}

#[test]
fn cross_low_enters_dying() {
    let cfg = test_config();
    let mut body = ZombieBodyHp::new(ZombieType::Zombie, bits(270.0));
    apply_body_damage(&mut body, 181.0, &cfg);
    assert_eq!(body.stage, ZombieHpStage::Dying);
    assert!(!body.is_targetable_by_plants());
}

#[test]
fn big_hit_skips_to_dying() {
    let cfg = test_config();
    let mut body = ZombieBodyHp::new(ZombieType::Zombie, bits(270.0));
    apply_body_damage(&mut body, 200.0, &cfg);
    assert_eq!(body.stage, ZombieHpStage::Dying);
}

#[test]
fn stage_never_regresses() {
    let cfg = test_config();
    let mut body = ZombieBodyHp::new(ZombieType::Zombie, bits(270.0));
    apply_body_damage(&mut body, 91.0, &cfg);
    body.current = bits(260.0);
    let ratio = hp_ratio(&body);
    update_stage_after_hp_change(&mut body.stage, bits(ratio), &cfg);
    assert_eq!(body.stage, ZombieHpStage::LostArm);
}

#[test]
fn new_body_is_full_and_targetable() {
    let body = ZombieBodyHp::new(ZombieType::ConeheadZombie, bits(270.0));
    assert_eq!(body.stage, ZombieHpStage::Full);
    assert_eq!(body.current, bits(270.0));
    assert_eq!(body.max, bits(270.0));
    assert!(body.is_targetable_by_plants());
    assert_eq!(ZombieHpStage::default(), ZombieHpStage::Full);
}

#[test]
fn stage_update_at_exact_thresholds() {
    let cfg = test_config();
    let mut stage = ZombieHpStage::Full;
    update_stage_after_hp_change(&mut stage, bits(0.668), &cfg);
    assert_eq!(stage, ZombieHpStage::Full);
    update_stage_after_hp_change(&mut stage, bits(0.667), &cfg);
    assert_eq!(stage, ZombieHpStage::LostArm);
    update_stage_after_hp_change(&mut stage, bits(0.334), &cfg);
    assert_eq!(stage, ZombieHpStage::LostArm);
    update_stage_after_hp_change(&mut stage, bits(0.333), &cfg);
    assert_eq!(stage, ZombieHpStage::Dying);
    update_stage_after_hp_change(&mut stage, bits(1.0), &cfg);
    assert_eq!(stage, ZombieHpStage::Dying);
}

#[test]
fn nan_ratio_changes_nothing() {
    let cfg = test_config();
    let mut stage = ZombieHpStage::Full;
    update_stage_after_hp_change(&mut stage, bits(f32::NAN), &cfg);
    assert_eq!(stage, ZombieHpStage::Full);
}

#[test]
fn update_twice_is_update_once() {
    let cfg = test_config();
    for r in [0.0f32, 0.2, 0.5, 0.9] {
        for start in [ZombieHpStage::Full, ZombieHpStage::LostArm, ZombieHpStage::Dying] {
            let mut once = start;
            update_stage_after_hp_change(&mut once, bits(r), &cfg);
            let mut twice = once;
            update_stage_after_hp_change(&mut twice, bits(r), &cfg);
            assert_eq!(once, twice);
        }
    }
}

#[test]
fn every_kind_has_segmented_hp() {
    for ty in ZombieType::ALL {
        assert!(ty.has_segmented_hp());
    }
}

#[test]
fn game_config_validation() {
    assert_eq!(test_config().validate(), Ok(()));
    test_config().require_valid();
    let mut c = test_config();
    c.hp_threshold_low = bits(0.0);
    assert_eq!(c.validate(), Err(GameConfigError::ThresholdOutOfRange));
    let mut c = test_config();
    c.hp_threshold_high = bits(1.0);
    assert_eq!(c.validate(), Err(GameConfigError::ThresholdOutOfRange));
    let mut c = test_config();
    c.hp_threshold_low = bits(0.7);
    assert_eq!(c.validate(), Err(GameConfigError::ThresholdsNotOrdered));
    let mut c = test_config();
    c.dying_drain_hp_per_sec = bits(0.0);
    assert_eq!(c.validate(), Err(GameConfigError::NonPositiveDrain));
    let mut c = test_config();
    c.dying_drain_hp_per_sec = bits(f32::NAN);
    assert_eq!(c.validate(), Err(GameConfigError::NonPositiveDrain));
}
