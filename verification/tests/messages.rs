use pvz_rust::levels::level_balance::{KeyContext, LevelBalanceError};
use pvz_rust::levels::LoadLevelError;
use pvz_rust::plants::PlantType;
use pvz_rust::zombies::stats::ZombieConfigError;
use pvz_rust::zombies::ZombieType;

#[test]
fn load_error_messages() {
    let e = LoadLevelError::Ron {
        path: "assets/data/levels/level_9.ron".to_string(),
        message: "missing field".to_string(),
    };
    assert_eq!(e.message(), "加载 assets/data/levels/level_9.ron 失败: missing field");
    let e = LoadLevelError::EmptyBackground { level_id: "level_1_1".to_string() };
    assert_eq!(e.message(), "关卡 level_1_1 的 background 不能为空");
    let e = LoadLevelError::InvalidBalance(LevelBalanceError::EmptyZombiePool);
    assert_eq!(e.message(), "zombie_pool 非空时至少须列一种僵尸");
}

#[test]
fn balance_error_messages() {
    assert_eq!(KeyContext::ZombiePool.name(), "zombie_pool");
    assert_eq!(KeyContext::ZombieOverrides.name(), "zombie_overrides");
    assert_eq!(KeyContext::PlantOverrides.name(), "plant_overrides");
    let e = LevelBalanceError::UnknownZombieKey { context: KeyContext::ZombiePool, key: "Gargantuar".to_string() };
    assert_eq!(e.message(), "zombie_pool 含未知僵尸键 Gargantuar（须与 zombies.ron / ZombieType 一致）");
    let e = LevelBalanceError::UnknownPlantKey { context: KeyContext::PlantOverrides, key: "Cactus".to_string() };
    assert_eq!(e.message(), "plant_overrides 含未知植物键 Cactus（须与 plants.ron / PlantType 一致）");
    let e = LevelBalanceError::InvalidZombieOverride {
        ty: ZombieType::ConeheadZombie,
        error: ZombieConfigError::NonPositiveBodyHp,
    };
    assert_eq!(e.message(), "zombie_overrides 中 ConeheadZombie 覆盖后的数值无效");
    let e = LevelBalanceError::InvalidPlantOverride {
        ty: PlantType::SnowPea,
        error: pvz_rust::plants::stats::PlantConfigError::EmptySpriteDir,
    };
    assert_eq!(e.message(), "plant_overrides 中 SnowPea 覆盖后的数值无效");
}
