use pvz_rust::armors::stats::{ArmorArchetypeStats, ArmorConfigError, ArmorTier};
use pvz_rust::armors::{validate_armor_archetype, ArmorArchetypeOverride, ArmorType, ArmorsCatalog};
use pvz_rust::armors::catalog::ArmorsCatalogError;
use pvz_rust::card_select::SelectedCards;
use pvz_rust::float_bits::{F32Bits, F64Bits};
use pvz_rust::grid::{GridConfig, GridPos};
use pvz_rust::levels::data::{VictoryCondition, WaveDef, WaveTrigger, ZombieArchetypeOverride};
use pvz_rust::levels::level_balance::{
    assert_known_plant_key, assert_known_zombie_key, effective_plant_stats, effective_spawn_params,
    effective_zombie_stats, plant_type_from_key, zombie_type_from_key, EffectiveSpawnParams, KeyContext,
    LevelBalanceError,
};
use pvz_rust::levels::load::{load_level_manifest_from, load_level_validated_from, LoadLevelError};
use pvz_rust::levels::wave_spawn::{
    pick_weighted_spawn_kind, pick_weighted_spawn_kind_with_draw, roll_wave_unit_kinds,
    roll_wave_unit_kinds_with_draws, spawn_candidates_for_wave,
};
use pvz_rust::levels::{validate_level_balance_config, LevelDef};
use pvz_rust::plants::catalog::PlantsCatalogError;
use pvz_rust::plants::stats::{PlantConfigError, TargetingRequirement};
use pvz_rust::plants::{
    validate_plant_archetype, PlantArchetypeOverride, PlantArchetypeStats, PlantTargeting, PlantTrait, PlantType,
    PlantsCatalog,
};
use pvz_rust::shop::planting::try_plant_selected_seed;
use pvz_rust::shop::slots::{seed_shop_for_level, update_seed_affordability, SeedSlot};
use pvz_rust::shop::{start_cooldown_for_plant, SeedShop, SelectedSeed};
use pvz_rust::sun::SunCount;
use pvz_rust::zombies::catalog::ZombiesCatalogError;
use pvz_rust::zombies::stats::ZombieConfigError;
use pvz_rust::zombies::{validate_zombie_archetype, ZombieArchetypeStats, ZombieType, ZombiesCatalog};

use rand::rngs::StdRng;
use rand::SeedableRng;

fn f32b(v: f32) -> F32Bits {
    F32Bits(v.to_bits())
}

fn f64b(v: f64) -> F64Bits {
    F64Bits(v.to_bits())
}

fn armor(tier: ArmorTier, hp: f32, dir: &str) -> ArmorArchetypeStats {
    ArmorArchetypeStats { tier, hp: f32b(hp), sprite_dir: dir.to_string() }
}

fn armor_entries() -> Vec<(String, ArmorArchetypeStats)> {
    vec![
        ("Conehead".to_string(), armor(ArmorTier::Tier1, 370.0, "armors/cone")),
        ("Buckethead".to_string(), armor(ArmorTier::Tier1, 1100.0, "armors/bucket")),
        ("Newspaper".to_string(), armor(ArmorTier::Tier2, 150.0, "armors/newspaper")),
        ("ScreenDoor".to_string(), armor(ArmorTier::Tier2, 1100.0, "armors/door")),
        ("FootballHelmet".to_string(), armor(ArmorTier::Tier1, 1400.0, "armors/helmet")),
    ]
}

fn armors() -> ArmorsCatalog {
    ArmorsCatalog::from_entries(&armor_entries()).expect("armor entries")
}

fn zombie(armor: Option<&str>, score: i32, weight: u32, min_wave: u32) -> ZombieArchetypeStats {
    ZombieArchetypeStats {
        armor: armor.map(|a| a.to_string()),
        body_hp: f32b(270.0),
        secs_per_cell_min: f64b(4.7),
        secs_per_cell_max: f64b(5.0),
        state_secs_per_cell_min: None,
        state_secs_per_cell_max: None,
        attack_damage: f32b(100.0),
        attack_interval: f64b(1.0),
        sprite_dir: "zombies/zombie".to_string(),
        walk_frames: 8,
        eat_frames: 6,
        die_frames: 6,
        score,
        weight,
        min_wave,
    }
}

fn zombie_entries() -> Vec<(String, ZombieArchetypeStats)> {
    let mut dancing = zombie(None, 350, 1000, 6);
    dancing.state_secs_per_cell_min = Some(f64b(1.2));
    dancing.state_secs_per_cell_max = Some(f64b(1.2));
    vec![
        ("Zombie".to_string(), zombie(None, 100, 4000, 1)),
        ("FlagZombie".to_string(), zombie(None, 0, 0, 1)),
        ("ConeheadZombie".to_string(), zombie(Some("Conehead"), 150, 4000, 2)),
        ("PoleVaultingZombie".to_string(), zombie(None, 200, 2000, 3)),
        ("BucketheadZombie".to_string(), zombie(Some("Buckethead"), 300, 3000, 4)),
        ("NewspaperZombie".to_string(), zombie(Some("Newspaper"), 150, 1000, 5)),
        ("ScreenDoorZombie".to_string(), zombie(Some("ScreenDoor"), 300, 1000, 5)),
        ("FootballZombie".to_string(), zombie(Some("FootballHelmet"), 400, 1000, 6)),
        ("DancingZombie".to_string(), dancing),
        ("BackupDancerZombie".to_string(), zombie(None, 0, 0, 1)),
    ]
}

fn zombies() -> ZombiesCatalog {
    ZombiesCatalog::from_entries(&zombie_entries(), &armors()).expect("zombie entries")
}

fn plant(sun_cost: u32, targeting: Option<PlantTargeting>) -> PlantArchetypeStats {
    let z = f32b(0.0);
    let zd = f64b(0.0);
    PlantArchetypeStats {
        health: f32b(300.0),
        sun_cost,
        cooldown_secs: f64b(7.5),
        targeting,
        shoot_interval: f64b(1.4),
        damage: f32b(20.0),
        damage_per_projectile: z,
        projectiles_per_volley: 0,
        produce_interval: zd,
        sun_yield: 0,
        sun_yield_small: 0,
        sun_yield_mature: 0,
        mature_after_secs: zd,
        first_produce_after_secs: (z, z),
        explosion_damage: z,
        explosion_radius_cells: z,
        fuse_duration: zd,
        emerge_after_secs: (z, z),
        swallow_instakill: false,
        digest_duration_secs: zd,
        grave_digest_secs: zd,
        swallow_fail_damage: z,
        traits: vec![],
        slow_duration: None,
        slow_factor: None,
        cracked1_threshold: z,
        cracked2_threshold: z,
        shoot_timer_repeating: false,
        sprite_dir: "plants/plant".to_string(),
        idle_frames: 4,
        shoot_frames: 0,
        placeholder_rgb: (z, z, z),
        size: (z, z),
        spawn_z: z,
    }
}

fn plant_entries() -> Vec<(String, PlantArchetypeStats)> {
    let mut cherry = plant(150, Some(PlantTargeting::Area3x3));
    cherry.explosion_damage = f32b(1800.0);
    cherry.explosion_radius_cells = f32b(1.5);
    cherry.traits = vec![PlantTrait::Ash];
    let mut snow = plant(175, Some(PlantTargeting::LaneForward));
    snow.traits = vec![PlantTrait::Slow];
    snow.slow_duration = Some(f32b(10.0));
    snow.slow_factor = Some(f32b(0.5));
    let mut puff = plant(0, Some(PlantTargeting::ForwardRange(f32b(3.0))));
    puff.traits = vec![PlantTrait::Night];
    let mut sun_shroom = plant(25, None);
    sun_shroom.traits = vec![PlantTrait::Night];
    let mut nut = plant(50, None);
    nut.health = f32b(4000.0);
    vec![
        ("Peashooter".to_string(), plant(100, Some(PlantTargeting::LaneForward))),
        ("Sunflower".to_string(), plant(50, None)),
        ("CherryBomb".to_string(), cherry),
        ("WallNut".to_string(), nut),
        ("PotatoMine".to_string(), plant(25, Some(PlantTargeting::RowRadius(f32b(0.5))))),
        ("SnowPea".to_string(), snow),
        ("Chomper".to_string(), plant(150, Some(PlantTargeting::ForwardRange(f32b(1.0))))),
        ("Repeater".to_string(), plant(200, Some(PlantTargeting::LaneForward))),
        ("PuffShroom".to_string(), puff),
        ("SunShroom".to_string(), sun_shroom),
    ]
}

fn plants() -> PlantsCatalog {
    PlantsCatalog::from_entries(&plant_entries()).expect("plant entries")
}

fn minimal_level(
    zombie_pool: Option<Vec<String>>,
    zombie_overrides: Option<Vec<(String, ZombieArchetypeOverride)>>,
    plant_overrides: Option<Vec<(String, PlantArchetypeOverride)>>,
) -> LevelDef {
    LevelDef {
        background: String::new(),
        bgm: String::new(),
        initial_sun: 0,
        plant_slots: vec![],
        waves: vec![WaveDef { trigger: WaveTrigger::Time(f32b(1.0)), max_points: 100, is_final: false }],
        victory_condition: VictoryCondition::AllWavesCleared,
        zombie_pool,
        zombie_overrides,
        plant_overrides,
        armor_overrides: None,
    }
}

#[test]
fn override_min_wave_only_for_level() {
    let catalog = zombies();
    let overrides = vec![(
        "ConeheadZombie".to_string(),
        ZombieArchetypeOverride { min_wave: Some(1), ..ZombieArchetypeOverride::default() },
    )];
    let level = minimal_level(None, Some(overrides), None);
    let eff = effective_spawn_params(&catalog, &level, ZombieType::ConeheadZombie).expect("应有路障");
    assert_eq!(eff.min_wave, 1);
    assert_eq!(eff.score, 150);
}

#[test]
fn zombie_pool_excludes_unlisted() {
    let catalog = zombies();
    let level = minimal_level(Some(vec!["Zombie".to_string()]), None, None);
    assert!(effective_spawn_params(&catalog, &level, ZombieType::Zombie).is_some());
    assert!(effective_spawn_params(&catalog, &level, ZombieType::ConeheadZombie).is_none());
}

#[test]
fn zombie_override_body_hp() {
    let catalog = zombies();
    let overrides = vec![(
        "Zombie".to_string(),
        ZombieArchetypeOverride { body_hp: Some(f32b(100.0)), ..ZombieArchetypeOverride::default() },
    )];
    let level = minimal_level(None, Some(overrides), None);
    let stats = effective_zombie_stats(&catalog, &level, ZombieType::Zombie).expect("应有普通僵尸");
    assert!((f32::from_bits(stats.body_hp.0) - 100.0).abs() < f32::EPSILON);
}

#[test]
fn plant_override_sun_cost() {
    let catalog = plants();
    let patch = PlantArchetypeOverride { sun_cost: Some(75), ..PlantArchetypeOverride::default() };
    let overrides = vec![("Peashooter".to_string(), patch)];
    let level = minimal_level(None, None, Some(overrides));
    let merged = effective_plant_stats(&catalog, &level, PlantType::Peashooter).expect("应有豌豆");
    assert_eq!(merged.sun_cost, 75);
    assert_eq!(merged.targeting, Some(PlantTargeting::LaneForward));
}

#[test]
fn catalogs_build_from_complete_entries() {
    let a = armors();
    assert_eq!(a.get(ArmorType::Buckethead).unwrap().hp, f32b(1100.0));
    assert_eq!(a.get_by_key("Newspaper").unwrap().tier, ArmorTier::Tier2);
    assert!(a.get_by_key("Pumpkin").is_none());
    let z = zombies();
    assert_eq!(z.get(ZombieType::FootballZombie).unwrap().score, 400);
    let p = plants();
    assert_eq!(p.len(), 10);
    assert_eq!(p.get(PlantType::SnowPea).unwrap().sun_cost, 175);
    assert!(p.get(PlantType::SnowPea).unwrap().has_trait(PlantTrait::Slow));
    assert!(!p.get(PlantType::Peashooter).unwrap().has_trait(PlantTrait::Slow));
}

#[test]
fn catalogs_reject_wrong_count_missing_and_invalid_entries() {
    let mut four = armor_entries();
    four.pop();
    assert_eq!(
        ArmorsCatalog::from_entries(&four).err(),
        Some(ArmorsCatalogError::WrongEntryCount { expected: 5, actual: 4 })
    );
    let mut renamed = armor_entries();
    renamed[1].0 = "Bucket".to_string();
    assert_eq!(ArmorsCatalog::from_entries(&renamed).err(), Some(ArmorsCatalogError::MissingEntry(ArmorType::Buckethead)));
    let mut bad = armor_entries();
    bad[2].1.sprite_dir = String::new();
    assert_eq!(
        ArmorsCatalog::from_entries(&bad).err(),
        Some(ArmorsCatalogError::InvalidEntry(ArmorType::Newspaper, ArmorConfigError::EmptySpriteDir))
    );

    let mut zs = zombie_entries();
    zs[4].1.armor = Some("Pot".to_string());
    assert_eq!(
        ZombiesCatalog::from_entries(&zs, &armors()).err(),
        Some(ZombiesCatalogError::InvalidEntry(
            ZombieType::BucketheadZombie,
            ZombieConfigError::UnknownArmor("Pot".to_string())
        ))
    );
    let mut zs = zombie_entries();
    zs.push(("Gargantuar".to_string(), zombie(None, 0, 0, 1)));
    assert_eq!(
        ZombiesCatalog::from_entries(&zs, &armors()).err(),
        Some(ZombiesCatalogError::WrongEntryCount { expected: 10, actual: 11 })
    );

    let mut ps = plant_entries();
    ps[0].0 = "PeaShooter".to_string();
    assert_eq!(PlantsCatalog::from_entries(&ps).err(), Some(PlantsCatalogError::MissingEntry(PlantType::Peashooter)));
    let mut ps = plant_entries();
    ps[3].1.targeting = Some(PlantTargeting::Global);
    assert_eq!(
        PlantsCatalog::from_entries(&ps).err(),
        Some(PlantsCatalogError::InvalidEntry(PlantType::WallNut, PlantConfigError::TargetingForbidden))
    );
}

#[test]
fn armor_checks_and_override() {
    assert_eq!(
        validate_armor_archetype(ArmorType::Conehead, &armor(ArmorTier::Tier1, 0.0, "x")),
        Err(ArmorConfigError::NonPositiveHp)
    );
    assert_eq!(validate_armor_archetype(ArmorType::Conehead, &armor(ArmorTier::Tier1, 1.0, "x")), Ok(()));
    let base = armor(ArmorTier::Tier1, 370.0, "armors/cone");
    let merged = ArmorArchetypeOverride { hp: Some(f32b(500.0)) }.apply_to(&base);
    assert_eq!(merged.hp, f32b(500.0));
    assert_eq!(merged.sprite_dir, "armors/cone");
    assert_eq!(ArmorArchetypeOverride::default().apply_to(&base), base);
}

#[test]
fn zombie_checks_report_each_error() {
    let a = armors();
    let check = |s: &ZombieArchetypeStats, ty| validate_zombie_archetype(ty, s, &a);
    let mut s = zombie(None, 100, 10, 1);
    assert_eq!(check(&s, ZombieType::Zombie), Ok(()));
    s.body_hp = f32b(-1.0);
    assert_eq!(check(&s, ZombieType::Zombie), Err(ZombieConfigError::NonPositiveBodyHp));
    let mut s = zombie(None, 100, 10, 1);
    s.body_hp = f32b(f32::NAN);
    assert_eq!(check(&s, ZombieType::Zombie), Ok(()));
    let mut s = zombie(None, 100, 10, 1);
    s.secs_per_cell_min = f64b(6.0);
    assert_eq!(check(&s, ZombieType::Zombie), Err(ZombieConfigError::SpeedRangeInverted));
    let s = zombie(None, -5, 0, 1);
    assert_eq!(check(&s, ZombieType::Zombie), Err(ZombieConfigError::NegativeScore));
    let s = zombie(None, 100, 0, 1);
    assert_eq!(
        check(&s, ZombieType::Zombie),
        Err(ZombieConfigError::InconsistentSpawnWeights { score: 100, weight: 0 })
    );
    let s = zombie(None, 0, 5, 1);
    assert_eq!(check(&s, ZombieType::Zombie), Err(ZombieConfigError::InconsistentSpawnWeights { score: 0, weight: 5 }));
    let s = zombie(None, 100, 10, 0);
    assert_eq!(check(&s, ZombieType::Zombie), Err(ZombieConfigError::MinWaveBelowOne));
    let s = zombie(None, 0, 0, 0);
    assert_eq!(check(&s, ZombieType::Zombie), Ok(()));
    let s = zombie(Some(""), 100, 10, 1);
    assert_eq!(check(&s, ZombieType::Zombie), Err(ZombieConfigError::EmptyArmorKey));
    let s = zombie(None, 100, 10, 1);
    assert_eq!(check(&s, ZombieType::DancingZombie), Err(ZombieConfigError::MissingStateSpeed));
    let mut s = zombie(None, 100, 10, 1);
    s.state_secs_per_cell_min = Some(f64b(2.0));
    s.state_secs_per_cell_max = Some(f64b(1.0));
    assert_eq!(check(&s, ZombieType::DancingZombie), Err(ZombieConfigError::StateSpeedRangeInverted));
    assert_eq!(check(&s, ZombieType::Zombie), Ok(()));
}

#[test]
fn plant_checks_report_each_error() {
    let check = |ty, s: &PlantArchetypeStats| validate_plant_archetype(ty, s);
    let mut s = plant(100, Some(PlantTargeting::LaneForward));
    assert_eq!(check(PlantType::Peashooter, &s), Ok(()));
    s.health = f32b(0.0);
    assert_eq!(check(PlantType::Peashooter, &s), Err(PlantConfigError::NonPositiveHealth));
    let mut s = plant(100, Some(PlantTargeting::LaneForward));
    s.cooldown_secs = f64b(-0.5);
    assert_eq!(check(PlantType::Peashooter, &s), Err(PlantConfigError::NegativeCooldown));
    let mut s = plant(100, Some(PlantTargeting::LaneForward));
    s.sprite_dir = String::new();
    assert_eq!(check(PlantType::Peashooter, &s), Err(PlantConfigError::EmptySpriteDir));
    let s = plant(100, None);
    assert_eq!(
        check(PlantType::Repeater, &s),
        Err(PlantConfigError::TargetingMissing(TargetingRequirement::LaneForward))
    );
    let s = plant(100, Some(PlantTargeting::ForwardRange(f32b(-1.0))));
    assert_eq!(
        check(PlantType::Chomper, &s),
        Err(PlantConfigError::TargetingMismatch(TargetingRequirement::PositiveForwardRange))
    );
    let s = plant(100, Some(PlantTargeting::RowRadius(f32b(f32::INFINITY))));
    assert_eq!(
        check(PlantType::PotatoMine, &s),
        Err(PlantConfigError::TargetingMismatch(TargetingRequirement::PositiveRowRadius))
    );
    let s = plant(100, Some(PlantTargeting::LaneForward));
    assert_eq!(check(PlantType::Sunflower, &s), Err(PlantConfigError::TargetingForbidden));
    let s = plant(150, Some(PlantTargeting::Area3x3));
    assert_eq!(check(PlantType::CherryBomb, &s), Err(PlantConfigError::NonPositiveExplosionDamage));
    let mut s = plant(150, Some(PlantTargeting::Area3x3));
    s.explosion_damage = f32b(1800.0);
    s.explosion_radius_cells = f32b(f32::NAN);
    assert_eq!(check(PlantType::CherryBomb, &s), Err(PlantConfigError::InvalidExplosionRadius));
    let mut s = plant(50, None);
    s.grave_digest_secs = f64b(3.0);
    assert_eq!(check(PlantType::WallNut, &s), Err(PlantConfigError::GraveDigestForbidden));
    let mut s = plant(175, Some(PlantTargeting::LaneForward));
    s.traits = vec![PlantTrait::Slow];
    s.slow_duration = Some(f32b(10.0));
    assert_eq!(check(PlantType::SnowPea, &s), Err(PlantConfigError::SlowFieldsMissing));
    s.slow_factor = Some(f32b(1.0));
    assert_eq!(check(PlantType::SnowPea, &s), Err(PlantConfigError::SlowFactorOutOfRange));
    s.slow_factor = Some(f32b(0.5));
    s.slow_duration = Some(f32b(0.0));
    assert_eq!(check(PlantType::SnowPea, &s), Err(PlantConfigError::NonPositiveSlowDuration));
    s.traits = vec![];
    assert_eq!(check(PlantType::SnowPea, &s), Err(PlantConfigError::SlowFieldsWithoutTrait));
}

#[test]
fn plant_override_replaces_only_set_fields() {
    let base = plant_entries().remove(5).1;
    let ov = PlantArchetypeOverride {
        health: Some(f32b(1.0)),
        traits: Some(vec![PlantTrait::Freeze]),
        targeting: Some(PlantTargeting::Global),
        slow_factor: Some(f32b(0.25)),
        ..PlantArchetypeOverride::default()
    };
    let merged = ov.apply_to(&base);
    assert_eq!(merged.health, f32b(1.0));
    assert_eq!(merged.traits, vec![PlantTrait::Freeze]);
    assert_eq!(merged.targeting, Some(PlantTargeting::Global));
    assert_eq!(merged.slow_factor, Some(f32b(0.25)));
    assert_eq!(merged.slow_duration, Some(f32b(10.0)));
    assert_eq!(merged.sun_cost, 175);
    assert_eq!(PlantArchetypeOverride::default().apply_to(&base), base);
}

#[test]
fn zombie_override_replaces_only_set_fields() {
    let base = zombie(Some("Conehead"), 150, 4000, 2);
    let ov = ZombieArchetypeOverride {
        armor: Some("Buckethead".to_string()),
        score: Some(175),
        state_secs_per_cell_min: Some(f64b(0.8)),
        ..ZombieArchetypeOverride::default()
    };
    let merged = ov.apply_to(&base);
    assert_eq!(merged.armor, Some("Buckethead".to_string()));
    assert_eq!(merged.score, 175);
    assert_eq!(merged.state_secs_per_cell_min, Some(f64b(0.8)));
    assert_eq!(merged.weight, 4000);
    assert_eq!(ov.apply_to(&merged), merged);
}

#[test]
fn key_checks_and_lookups() {
    assert_eq!(assert_known_zombie_key(&"FootballZombie".to_string(), KeyContext::ZombiePool), Ok(()));
    assert_eq!(
        assert_known_zombie_key(&"Imp".to_string(), KeyContext::ZombieOverrides),
        Err(LevelBalanceError::UnknownZombieKey { context: KeyContext::ZombieOverrides, key: "Imp".to_string() })
    );
    assert_eq!(
        assert_known_plant_key(&"Cactus".to_string(), KeyContext::PlantOverrides),
        Err(LevelBalanceError::UnknownPlantKey { context: KeyContext::PlantOverrides, key: "Cactus".to_string() })
    );
    assert_eq!(zombie_type_from_key("DancingZombie"), ZombieType::DancingZombie);
    assert_eq!(plant_type_from_key("PotatoMine"), PlantType::PotatoMine);
}

#[test]
fn level_balance_rejects_bad_pools_and_overrides() {
    let (z, p, a) = (zombies(), plants(), armors());
    let ok = minimal_level(Some(vec!["Zombie".to_string(), "ConeheadZombie".to_string()]), None, None);
    assert_eq!(validate_level_balance_config(&ok, &z, &p, &a), Ok(()));
    let empty = minimal_level(Some(vec![]), None, None);
    assert_eq!(validate_level_balance_config(&empty, &z, &p, &a), Err(LevelBalanceError::EmptyZombiePool));
    let unknown = minimal_level(Some(vec!["Zombie".to_string(), "Yeti".to_string()]), None, None);
    assert_eq!(
        validate_level_balance_config(&unknown, &z, &p, &a),
        Err(LevelBalanceError::UnknownZombieKey { context: KeyContext::ZombiePool, key: "Yeti".to_string() })
    );
    let bad_zombie = minimal_level(
        None,
        Some(vec![("Zombie".to_string(), ZombieArchetypeOverride { weight: Some(0), ..ZombieArchetypeOverride::default() })]),
        None,
    );
    assert_eq!(
        validate_level_balance_config(&bad_zombie, &z, &p, &a),
        Err(LevelBalanceError::InvalidZombieOverride {
            ty: ZombieType::Zombie,
            error: ZombieConfigError::InconsistentSpawnWeights { score: 100, weight: 0 }
        })
    );
    let bad_plant = minimal_level(
        None,
        None,
        Some(vec![(
            "SnowPea".to_string(),
            PlantArchetypeOverride { traits: Some(vec![]), ..PlantArchetypeOverride::default() },
        )]),
    );
    assert_eq!(
        validate_level_balance_config(&bad_plant, &z, &p, &a),
        Err(LevelBalanceError::InvalidPlantOverride {
            ty: PlantType::SnowPea,
            error: PlantConfigError::SlowFieldsWithoutTrait
        })
    );
}

#[test]
fn loading_a_level_checks_background_and_balance() {
    let (z, p, a) = (zombies(), plants(), armors());
    assert_eq!(
        load_level_manifest_from("level_1_1", Err("bad".to_string())).err(),
        Some(LoadLevelError::Ron { path: "assets/data/levels/level_1_1.ron".to_string(), message: "bad".to_string() })
    );
    assert_eq!(
        load_level_manifest_from("level_1_2", Ok(minimal_level(None, None, None))).err(),
        Some(LoadLevelError::EmptyBackground { level_id: "level_1_2".to_string() })
    );
    let mut level = minimal_level(Some(vec![]), None, None);
    level.background = "backgrounds/day.png".to_string();
    assert_eq!(
        load_level_validated_from("level_1_1", Ok(level), &z, &p, &a).err(),
        Some(LoadLevelError::InvalidBalance(LevelBalanceError::EmptyZombiePool))
    );
    let mut level = minimal_level(None, None, None);
    level.background = "backgrounds/day.png".to_string();
    let loaded = load_level_validated_from("level_1_1", Ok(level), &z, &p, &a).expect("valid level");
    assert_eq!(loaded.background, "backgrounds/day.png");
}

#[test]
fn wave_candidates_follow_min_wave_and_pool() {
    let z = zombies();
    let kinds = |wave| spawn_candidates_for_wave(&z, None, wave).iter().map(|c| c.0).collect::<Vec<_>>();
    assert_eq!(kinds(1), vec![ZombieType::Zombie]);
    assert_eq!(kinds(2), vec![ZombieType::Zombie, ZombieType::ConeheadZombie]);
    assert_eq!(kinds(6).len(), 8);
    let level = minimal_level(Some(vec!["ConeheadZombie".to_string(), "FlagZombie".to_string()]), None, None);
    let c = spawn_candidates_for_wave(&z, Some(&level), 9);
    assert_eq!(c, vec![(ZombieType::ConeheadZombie, EffectiveSpawnParams { score: 150, weight: 4000, min_wave: 2 })]);
}

#[test]
fn weighted_pick_walks_cumulative_weights() {
    let z = zombies();
    // wave 2 with budget 150: Zombie (weight 4000) then Conehead (weight 4000)
    assert_eq!(pick_weighted_spawn_kind_with_draw(&z, None, 2, 150, 0), Some(ZombieType::Zombie));
    assert_eq!(pick_weighted_spawn_kind_with_draw(&z, None, 2, 150, 3999), Some(ZombieType::Zombie));
    assert_eq!(pick_weighted_spawn_kind_with_draw(&z, None, 2, 150, 4000), Some(ZombieType::ConeheadZombie));
    assert_eq!(pick_weighted_spawn_kind_with_draw(&z, None, 2, 150, 99_999), Some(ZombieType::ConeheadZombie));
    assert_eq!(pick_weighted_spawn_kind_with_draw(&z, None, 2, 149, 5000), Some(ZombieType::Zombie));
    assert_eq!(pick_weighted_spawn_kind_with_draw(&z, None, 2, 99, 0), None);
    let mut rng = StdRng::seed_from_u64(7);
    assert_eq!(pick_weighted_spawn_kind(&z, None, 1, 99, &mut rng), None);
    assert_eq!(pick_weighted_spawn_kind(&z, None, 1, 100, &mut rng), Some(ZombieType::Zombie));
}

#[test]
fn roll_with_given_draws_spends_the_budget() {
    let z = zombies();
    let kinds = roll_wave_unit_kinds_with_draws(&z, None, 2, 400, &vec![4000, 0, 0, 9]);
    assert_eq!(kinds, vec![ZombieType::ConeheadZombie, ZombieType::Zombie, ZombieType::Zombie]);
    let short = roll_wave_unit_kinds_with_draws(&z, None, 2, 400, &vec![4000]);
    assert_eq!(short, vec![ZombieType::ConeheadZombie]);
    assert!(roll_wave_unit_kinds_with_draws(&z, None, 2, 0, &vec![1, 2]).is_empty());
}

#[test]
fn roll_with_generator_stays_within_budget() {
    let z = zombies();
    for seed in 0..40u64 {
        let mut rng = StdRng::seed_from_u64(seed);
        let kinds = roll_wave_unit_kinds(&z, None, 6, 1000, &mut rng);
        let spent: i32 = kinds.iter().map(|k| z.get(*k).unwrap().score).sum();
        assert!(spent <= 1000);
        assert!(1000 - spent < 100, "a zombie costing 100 would still fit");
        assert!(kinds.iter().all(|k| z.get(*k).unwrap().min_wave <= 6));
    }
    let mut rng = StdRng::seed_from_u64(1);
    assert!(roll_wave_unit_kinds(&z, None, 1, -5, &mut rng).is_empty());
}

#[test]
fn seed_bar_for_level_uses_level_costs() {
    let p = plants();
    let mut level = minimal_level(
        None,
        None,
        Some(vec![("Sunflower".to_string(), PlantArchetypeOverride { sun_cost: Some(25), ..PlantArchetypeOverride::default() })]),
    );
    level.initial_sun = 50;
    let cards = SelectedCards { plants: vec![PlantType::Sunflower, PlantType::Peashooter] };
    let shop = seed_shop_for_level(&level, &cards, &p);
    assert_eq!(
        shop.slots,
        vec![
            SeedSlot {
                plant: PlantType::Sunflower,
                cooldown_progress: F32Bits(1.0f32.to_bits()),
                cooldown_secs: f64b(7.5),
                sun_cost: 25,
                affordable: true
            },
            SeedSlot {
                plant: PlantType::Peashooter,
                cooldown_progress: F32Bits(1.0f32.to_bits()),
                cooldown_secs: f64b(7.5),
                sun_cost: 100,
                affordable: false
            },
        ]
    );
}

fn grid() -> GridConfig {
    let c = (f32b(0.5), f32b(0.5), f32b(0.5));
    GridConfig {
        cols: 11,
        rows: 5,
        cell_width: f32b(80.0),
        cell_height: f32b(100.0),
        origin: (f32b(-320.0), f32b(-210.0)),
        row_colors: vec![c, c],
        lawnmower_column_color: c,
        zombie_spawn_column_color: c,
        grid_line_color: c,
        grid_line_width: f32b(2.0),
        background_fallback_color: c,
    }
}

#[test]
fn planting_pays_and_restarts_cooldown() {
    let cfg = grid();
    let mut shop = SeedShop {
        slots: vec![SeedSlot::new(PlantType::Sunflower, f64b(7.5), 50), SeedSlot::new(PlantType::Peashooter, f64b(7.5), 100)],
    };
    let mut sun = SunCount(120);
    let mut selected = SelectedSeed { plant: Some(PlantType::Peashooter) };
    let occupied = vec![GridPos { col: 2, row: 2 }];
    // the mower column is not plantable
    assert_eq!(try_plant_selected_seed(&cfg, GridPos { col: 0, row: 1 }, &occupied, &mut selected, &mut shop, &mut sun), None);
    // an occupied cell
    assert_eq!(try_plant_selected_seed(&cfg, GridPos { col: 2, row: 2 }, &occupied, &mut selected, &mut shop, &mut sun), None);
    assert_eq!(sun, SunCount(120));
    let planted = try_plant_selected_seed(&cfg, GridPos { col: 3, row: 2 }, &occupied, &mut selected, &mut shop, &mut sun);
    assert_eq!(planted, Some(PlantType::Peashooter));
    assert_eq!(sun, SunCount(20));
    assert_eq!(selected.plant, None);
    assert_eq!(shop.slots[1].cooldown_progress, F32Bits(0));
    assert!(shop.slots[0].is_ready());
    // cooling down: nothing happens
    selected.plant = Some(PlantType::Peashooter);
    sun = SunCount(500);
    assert_eq!(try_plant_selected_seed(&cfg, GridPos { col: 4, row: 2 }, &occupied, &mut selected, &mut shop, &mut sun), None);
    assert_eq!(sun, SunCount(500));
    // too little sun
    selected.plant = Some(PlantType::Sunflower);
    sun = SunCount(49);
    assert_eq!(try_plant_selected_seed(&cfg, GridPos { col: 4, row: 2 }, &occupied, &mut selected, &mut shop, &mut sun), None);
    assert_eq!(selected.plant, Some(PlantType::Sunflower));
}

#[test]
fn cooldown_restarts_only_first_matching_slot_and_affordability_follows_sun() {
    let mut shop = SeedShop {
        slots: vec![
            SeedSlot::new(PlantType::WallNut, f64b(30.0), 50),
            SeedSlot::new(PlantType::Repeater, f64b(7.5), 200),
            SeedSlot::new(PlantType::WallNut, f64b(30.0), 50),
        ],
    };
    start_cooldown_for_plant(&mut shop, PlantType::WallNut);
    assert_eq!(shop.slots[0].cooldown_progress, F32Bits(0));
    assert_eq!(shop.slots[2].cooldown_progress, F32Bits(1.0f32.to_bits()));
    assert!(!shop.slots[0].is_ready());
    start_cooldown_for_plant(&mut shop, PlantType::Chomper);
    assert_eq!(shop.slots[1].cooldown_progress, F32Bits(1.0f32.to_bits()));
    update_seed_affordability(&mut shop, 100);
    assert_eq!(shop.slots.iter().map(|s| s.affordable).collect::<Vec<_>>(), vec![true, false, true]);
    assert!(!shop.slots[1].is_ready());
    let mut half = SeedSlot::new(PlantType::Chomper, f64b(7.5), 150);
    half.cooldown_progress = f32b(0.5);
    assert!(!half.is_ready());
    half.start_cooldown();
    assert_eq!(half.cooldown_progress, F32Bits(0));
}

#[test]
fn balanced_level_gives_passing_stats_for_every_kind() {
    let (a, z, p) = (armors(), zombies(), plants());
    let zov = vec![
        ("ConeheadZombie".to_string(), ZombieArchetypeOverride { min_wave: Some(1), ..ZombieArchetypeOverride::default() }),
        ("Zombie".to_string(), ZombieArchetypeOverride { body_hp: Some(f32b(200.0)), ..ZombieArchetypeOverride::default() }),
    ];
    let pov = vec![("Peashooter".to_string(), PlantArchetypeOverride { sun_cost: Some(75), ..PlantArchetypeOverride::default() })];
    let level = minimal_level(Some(vec!["Zombie".to_string(), "ConeheadZombie".to_string()]), Some(zov), Some(pov));
    assert_eq!(validate_level_balance_config(&level, &z, &p, &a), Ok(()));
    for ty in ZombieType::ALL {
        let s = effective_zombie_stats(&z, &level, ty).unwrap();
        assert_eq!(validate_zombie_archetype(ty, &s, &a), Ok(()));
    }
    for ty in PlantType::ALL {
        let s = effective_plant_stats(&p, &level, ty).unwrap();
        assert_eq!(validate_plant_archetype(ty, &s), Ok(()));
    }
}

#[test]
fn rolled_kinds_are_in_the_level_pool_and_wave() {
    let z = zombies();
    let level = minimal_level(Some(vec!["Zombie".to_string(), "BucketheadZombie".to_string()]), None, None);
    for seed in 0..40u64 {
        let mut rng = StdRng::seed_from_u64(seed);
        let kinds = roll_wave_unit_kinds(&z, Some(&level), 3, 900, &mut rng);
        assert!(!kinds.is_empty());
        // Buckethead enters at wave 4, so wave 3 fields plain zombies only.
        assert!(kinds.iter().all(|k| *k == ZombieType::Zombie));
        assert_eq!(kinds.len(), 9);
        let kinds = roll_wave_unit_kinds(&z, Some(&level), 4, 900, &mut rng);
        assert!(kinds.iter().all(|k| *k == ZombieType::Zombie || *k == ZombieType::BucketheadZombie));
    }
}

#[test]
fn nothing_drawn_leaves_the_generator_as_it_was() {
    let z = zombies();
    let mut used = StdRng::seed_from_u64(7);
    let untouched = StdRng::seed_from_u64(7);
    // a budget that buys nothing: no draw
    assert_eq!(pick_weighted_spawn_kind(&z, None, 1, 50, &mut used), None);
    assert_eq!(used, untouched);
    assert!(roll_wave_unit_kinds(&z, None, 6, 0, &mut used).is_empty());
    assert!(roll_wave_unit_kinds(&z, None, 6, -10, &mut used).is_empty());
    assert_eq!(used, untouched);
    // a draw moves it on
    assert_eq!(pick_weighted_spawn_kind(&z, None, 1, 100, &mut used), Some(ZombieType::Zombie));
    assert_ne!(used, untouched);
}

#[test]
fn checked_entry_points_accept_good_data() {
    let a = ArmorsCatalog::from_valid_entries(&armor_entries());
    let z = ZombiesCatalog::from_valid_entries(&zombie_entries(), &a);
    let p = PlantsCatalog::from_valid_entries(&plant_entries());
    assert_eq!(z.get(ZombieType::ConeheadZombie).unwrap().score, 150);
    assert_eq!(p.get(PlantType::Sunflower).unwrap().sun_cost, 50);
    assert_eq!(a.get(ArmorType::Conehead).unwrap().hp, f32b(370.0));
    for (key, stats) in zombie_entries() {
        pvz_rust::zombies::stats::validate_zombie_entry(ZombieType::from_ron_key(&key).unwrap(), &stats, &a);
    }
    for (key, stats) in plant_entries() {
        pvz_rust::plants::stats::validate_plant_entry(PlantType::from_ron_key(&key).unwrap(), &stats);
        pvz_rust::plants::traits::require_valid_trait_fields(&key, &stats);
    }
    for (key, stats) in armor_entries() {
        pvz_rust::armors::stats::validate_armor_entry(ArmorType::from_ron_key(&key).unwrap(), &stats);
    }
    let level = minimal_level(Some(vec!["Zombie".to_string()]), None, None);
    pvz_rust::levels::level_balance::require_valid_level_balance(&level, &z, &p, &a);
    pvz_rust::levels::level_balance::require_known_zombie_key(&"Zombie".to_string(), KeyContext::ZombiePool);
    pvz_rust::levels::level_balance::require_known_plant_key(&"WallNut".to_string(), KeyContext::PlantOverrides);
    grid().require_valid(true);
}

#[test]
fn override_tables_with_repeated_keys_are_found() {
    let ov = ZombieArchetypeOverride::default();
    let once = minimal_level(None, Some(vec![("Zombie".to_string(), ov.clone()), ("FlagZombie".to_string(), ov.clone())]), None);
    assert!(once.has_distinct_override_keys());
    let twice = minimal_level(None, Some(vec![("Zombie".to_string(), ov.clone()), ("Zombie".to_string(), ov)]), None);
    assert!(!twice.has_distinct_override_keys());
    assert!(pvz_rust::entries::has_distinct_keys::<u32>(&vec![]));
    assert!(!pvz_rust::entries::has_distinct_keys(&vec![("a".to_string(), 1), ("b".to_string(), 2), ("a".to_string(), 3)]));
}
