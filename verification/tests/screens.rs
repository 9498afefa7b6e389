use std::path::PathBuf;

use pvz_rust::float_bits::{F32Bits, F64Bits};
use pvz_rust::shop::slots::{deselect_seed_on_right_click, seed_slot_clicked, SeedSlot};
use pvz_rust::shop::SelectedSeed;

use pvz_rust::card_select::{
    can_confirm, card_enabled, card_select_entry, card_select_transition, commit_loadout, toggle_card,
    CardSelectPending,
};
use pvz_rust::levels::AdventureProgress;
use pvz_rust::loading::listing::sorted_unique_paths;
use pvz_rust::loading::preload::{preload_kind, PreloadKind};
use pvz_rust::loading::progress::loading_finished;
use pvz_rust::loading::{RonBytesAsset, RonBytesAssetLoader};
use pvz_rust::plants::card_color::{plant_card_color, Rgb8};
use pvz_rust::plants::PlantType;
use pvz_rust::save::{save_file_path_in, user_data_dir_in, APP_SLUG, SAVE_FILE_NAME};
use pvz_rust::states::GameState;
use pvz_rust::ui::main_menu::{take_main_menu_action, MainMenuAction, MainMenuPending};
use pvz_rust::zombies::dancing::{DancingKingPhase, BACKUP_DANCER_SLOT_COUNT};

fn progress(slots: u32, plants: Vec<PlantType>) -> AdventureProgress {
    AdventureProgress { current_level: "level_1_1".to_string(), slot_count: slots, unlocked_plants: plants }
}

#[test]
fn few_unlocked_plants_skip_card_select() {
    let p = progress(6, vec![PlantType::Peashooter, PlantType::Sunflower]);
    let pending = card_select_entry(&p);
    assert_eq!(pending.selected, vec![PlantType::Peashooter, PlantType::Sunflower]);
    assert!(pending.confirmed);
    assert!(!pending.cancel);
}

#[test]
fn many_unlocked_plants_open_card_select() {
    let p = progress(1, vec![PlantType::Peashooter, PlantType::Sunflower]);
    let pending = card_select_entry(&p);
    assert!(pending.selected.is_empty());
    assert!(!pending.confirmed);
    assert!(!pending.cancel);
}

#[test]
fn toggling_cards_respects_slot_count() {
    let mut pending = CardSelectPending::default();
    assert!(toggle_card(&mut pending, PlantType::Peashooter, 2));
    assert!(toggle_card(&mut pending, PlantType::Sunflower, 2));
    assert_eq!(pending.selected, vec![PlantType::Peashooter, PlantType::Sunflower]);
    // full: a third card is refused and nothing changes
    assert!(!card_enabled(&pending, PlantType::WallNut, 2));
    assert!(!toggle_card(&mut pending, PlantType::WallNut, 2));
    assert_eq!(pending.selected, vec![PlantType::Peashooter, PlantType::Sunflower]);
    // a chosen card can always be taken back
    assert!(card_enabled(&pending, PlantType::Peashooter, 2));
    assert!(toggle_card(&mut pending, PlantType::Peashooter, 2));
    assert_eq!(pending.selected, vec![PlantType::Sunflower]);
    assert!(can_confirm(&pending, 2));
}

#[test]
fn toggling_twice_restores_the_choice() {
    let mut pending = CardSelectPending { selected: vec![PlantType::Chomper], confirmed: false, cancel: false };
    toggle_card(&mut pending, PlantType::Repeater, 3);
    toggle_card(&mut pending, PlantType::Repeater, 3);
    assert_eq!(pending.selected, vec![PlantType::Chomper]);
}

#[test]
fn confirming_needs_one_to_slot_count_cards() {
    let empty = CardSelectPending::default();
    assert!(!can_confirm(&empty, 6));
    let three = CardSelectPending {
        selected: vec![PlantType::Peashooter, PlantType::Sunflower, PlantType::WallNut],
        confirmed: false,
        cancel: false,
    };
    assert!(can_confirm(&three, 3));
    assert!(!can_confirm(&three, 2));
    assert_eq!(commit_loadout(&three).plants, three.selected);
}

#[test]
fn card_select_transitions() {
    let mut pending = CardSelectPending { selected: vec![PlantType::Peashooter], confirmed: true, cancel: true };
    assert_eq!(card_select_transition(&mut pending), Some(GameState::MainMenu));
    assert!(!pending.cancel);
    assert!(pending.confirmed);
    assert_eq!(card_select_transition(&mut pending), Some(GameState::Playing));
    assert!(!pending.confirmed);
    assert_eq!(card_select_transition(&mut pending), None);
    assert_eq!(pending.selected, vec![PlantType::Peashooter]);
}

#[test]
fn main_menu_exit_wins_over_start() {
    let mut pending = MainMenuPending { start_adventure: true, request_exit: true };
    assert_eq!(take_main_menu_action(&mut pending), Some(MainMenuAction::Exit));
    assert_eq!(pending, MainMenuPending { start_adventure: true, request_exit: false });
    assert_eq!(take_main_menu_action(&mut pending), Some(MainMenuAction::StartAdventure));
    assert_eq!(pending, MainMenuPending::default());
    assert_eq!(take_main_menu_action(&mut pending), None);
}

#[test]
fn preload_kinds_by_extension() {
    assert_eq!(preload_kind("plants/peashooter/idle_0.png"), Some(PreloadKind::Image));
    assert_eq!(preload_kind("sounds/splat.ogg"), Some(PreloadKind::Audio));
    assert_eq!(preload_kind("fonts/main.ttf"), Some(PreloadKind::Font));
    assert_eq!(preload_kind("data/plants.ron"), Some(PreloadKind::RonBytes));
    assert_eq!(preload_kind("readme.txt"), None);
    assert_eq!(preload_kind("png"), None);
    assert_eq!(preload_kind(".ron"), Some(PreloadKind::RonBytes));
    assert_eq!(preload_kind(""), None);
}

#[test]
fn loading_is_finished_when_all_are_loaded() {
    assert!(loading_finished(0, 0));
    assert!(!loading_finished(3, 4));
    assert!(loading_finished(4, 4));
    assert!(loading_finished(5, 4));
}

#[test]
fn ron_asset_loader() {
    assert_eq!(RonBytesAssetLoader.extension(), "ron");
    let asset = RonBytesAsset::from_bytes(b"(sun_cost: 75,)".to_vec());
    assert_eq!(asset.0, b"(sun_cost: 75,)".to_vec());
}

#[test]
fn save_paths_under_local_data() {
    assert_eq!(APP_SLUG, "pvz_rust");
    assert_eq!(SAVE_FILE_NAME, "save.ron");
    let base = PathBuf::from("/home/player/.local/share");
    assert_eq!(user_data_dir_in(Some(base.clone())), Some(base.join("pvz_rust")));
    assert_eq!(
        save_file_path_in(Some(base)),
        Some(PathBuf::from("/home/player/.local/share/pvz_rust/save.ron"))
    );
    assert_eq!(save_file_path_in(None), None);
    assert_eq!(user_data_dir_in(None), None);
}

#[test]
fn plant_card_colors() {
    assert_eq!(plant_card_color(PlantType::Peashooter), Rgb8 { r: 56, g: 184, b: 71 });
    assert_eq!(plant_card_color(PlantType::SunShroom), Rgb8 { r: 224, g: 158, b: 89 });
    for a in PlantType::ALL {
        for b in PlantType::ALL {
            if a != b {
                assert_ne!(plant_card_color(a), plant_card_color(b));
            }
        }
    }
}

#[test]
fn state_defaults() {
    assert_eq!(GameState::default(), GameState::Loading);
    assert_eq!(DancingKingPhase::default(), DancingKingPhase::Sliding);
    assert_eq!(BACKUP_DANCER_SLOT_COUNT, 4);
}

#[test]
fn seed_bar_clicks() {
    let ready = SeedSlot::new(PlantType::Sunflower, F64Bits(7.5f64.to_bits()), 50);
    let mut cooling = ready;
    cooling.cooldown_progress = F32Bits(0.5f32.to_bits());
    let mut poor = ready;
    poor.affordable = false;

    let mut sel = SelectedSeed::default();
    seed_slot_clicked(&mut sel, &cooling, true, false);
    assert_eq!(sel.plant, None);
    seed_slot_clicked(&mut sel, &poor, true, false);
    assert_eq!(sel.plant, None);
    seed_slot_clicked(&mut sel, &ready, true, false);
    assert_eq!(sel.plant, Some(PlantType::Sunflower));
    seed_slot_clicked(&mut sel, &cooling, false, true);
    assert_eq!(sel.plant, None);

    let mut sel = SelectedSeed { plant: Some(PlantType::Peashooter) };
    deselect_seed_on_right_click(&mut sel, true, true);
    assert_eq!(sel.plant, Some(PlantType::Peashooter));
    deselect_seed_on_right_click(&mut sel, false, false);
    assert_eq!(sel.plant, Some(PlantType::Peashooter));
    deselect_seed_on_right_click(&mut sel, false, true);
    assert_eq!(sel.plant, None);
}

#[test]
fn preload_list_is_sorted_and_unique() {
    let raw: Vec<String> = ["textures/b.png", "data/plants.ron", "audio/z.ogg", "data/plants.ron", "data/a.ron", "Data/x.ron", "data/plants.ro"]
        .iter()
        .map(|s| s.to_string())
        .collect();
    let mut expected = raw.clone();
    expected.sort();
    expected.dedup();
    assert_eq!(sorted_unique_paths(raw), expected);
    assert!(sorted_unique_paths(vec![]).is_empty());
    let accents: Vec<String> = ["é", "e", "z", "ä"].iter().map(|s| s.to_string()).collect();
    let mut expected = accents.clone();
    expected.sort();
    assert_eq!(sorted_unique_paths(accents), expected);
}
