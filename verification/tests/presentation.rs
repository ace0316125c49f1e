use std::collections::HashMap;

use brkrs::pause::PauseState;
use brkrs::systems::audio::LevelStarted;
use brkrs::systems::cheat_mode::CheatModeToggled;
use brkrs::systems::textures::contracts::{object_class_label, LevelSwitchStateContract};
use brkrs::systems::textures::loader::{index_level_overrides, LevelSwitchState, LevelTextureSet, ObjectClass};
use brkrs::systems::textures::materials::{
    apply_canonical_materials_to_existing_entities, baseline_material_handle,
    brick_type_material_handle, manifest_asset_path, use_fallback, BaselineMaterialKind,
    CanonicalMaterialIds, FallbackHandles, FallbackMaterial, FallbackRegistry, MaterialChoice,
    MaterialSlot, TypeVariantRegistry, VariantMaterial, uv_debug_texture_data,
};
use brkrs::systems::textures::overrides::{
    resolve_override_or_canonical, sync_level_presentation, LevelPresentation, MaterialSource,
};
use brkrs::ui::cheat_indicator::{cheat_indicator_action, IndicatorAction};
use brkrs::ui::game_over_overlay::should_spawn_game_over_overlay;
use brkrs::ui::gravity_indicator::{level_from_rounded, GravityLevel};
use brkrs::ui::level_label::{on_level_started, AccessibilityAnnouncement};
use brkrs::ui::lives_counter::lives_text;
use brkrs::ui::palette::{entry_caption, palette_entries, palette_ui_action, preview_highlighted, PaletteUiAction, SelectedBrick};
use brkrs::ui::pause_overlay::should_spawn_pause_overlay;
use brkrs::ui::score_display::score_text;
use brkrs::ui::UiSystemError;

fn rounded(v: f32) -> Option<i32> {
    if v.is_finite() {
        Some(v.round() as i32)
    } else {
        None
    }
}

fn map_gravity(x: f32, z: f32) -> GravityLevel {
    level_from_rounded(rounded(x), rounded(z))
}

#[test]
fn tolerance_rounding_maps_correctly() {
    assert_eq!(map_gravity(0.0, 0.0), GravityLevel::L0);
    assert_eq!(map_gravity(2.0, 0.0), GravityLevel::L2);
    assert_eq!(map_gravity(10.0, 0.0), GravityLevel::L10);
    assert_eq!(map_gravity(20.0, 0.0), GravityLevel::L20);
}

#[test]
fn mixed_axes_selects_highest_level() {
    assert_eq!(map_gravity(2.0, 10.0), GravityLevel::L10);
    assert_eq!(map_gravity(0.0, 20.0), GravityLevel::L20);
    assert_eq!(map_gravity(2.49, 0.0), GravityLevel::L2);
    assert_eq!(map_gravity(9.51, 0.0), GravityLevel::L10);
}

#[test]
fn unknown_when_outside_tolerance() {
    assert_eq!(map_gravity(2.6, 0.0), GravityLevel::Unknown);
    assert_eq!(map_gravity(9.4, 0.0), GravityLevel::Unknown);
}

#[test]
fn gravity_icons_and_negative_components() {
    assert_eq!(level_from_rounded(Some(-20), Some(3)), GravityLevel::L20);
    assert_eq!(level_from_rounded(None, None), GravityLevel::L0);
    assert_eq!(GravityLevel::L10.asset_name(), "weight-10");
    assert_eq!(GravityLevel::Unknown.asset_name(), "weight-question");
}

#[test]
fn screen_texts() {
    assert_eq!(score_text(1200), "Score: 1200");
    assert_eq!(lives_text(3), "Lives: 3");
    let mut ann = AccessibilityAnnouncement::default();
    let label = on_level_started(&LevelStarted { level_index: 7 }, &mut ann);
    assert_eq!(label, "Level 7");
    assert_eq!(ann.last.as_deref(), Some("Level 7"));
    assert_eq!(UiSystemError::EntityNotFound("root".to_string()).message(), "UI entity not found: root");
    assert_eq!(UiSystemError::Other("x".to_string()).message(), "UI error: x");
}

#[test]
fn overlays_and_indicator() {
    assert!(should_spawn_game_over_overlay(true, Some(0), false));
    assert!(!should_spawn_game_over_overlay(true, Some(1), false));
    assert!(!should_spawn_game_over_overlay(true, None, false));
    assert!(!should_spawn_game_over_overlay(false, Some(0), false));
    let paused = PauseState::Paused { window_mode_before_pause: brkrs::pause::WindowMode::Windowed };
    assert!(should_spawn_pause_overlay(paused, false, false));
    assert!(!should_spawn_pause_overlay(paused, false, true));
    assert_eq!(cheat_indicator_action(CheatModeToggled { active: true }, false, true), IndicatorAction::Show);
    assert_eq!(cheat_indicator_action(CheatModeToggled { active: true }, true, true), IndicatorAction::Nothing);
    assert_eq!(cheat_indicator_action(CheatModeToggled { active: false }, true, true), IndicatorAction::Hide);
}

#[test]
fn palette_panel_and_selection() {
    assert_eq!(palette_entries(), vec![20, 90]);
    assert_eq!(entry_caption(20), "20 — Simple Brick");
    assert_eq!(palette_ui_action(true, true, false), PaletteUiAction::Spawn);
    assert_eq!(palette_ui_action(true, true, true), PaletteUiAction::Nothing);
    assert_eq!(palette_ui_action(true, false, true), PaletteUiAction::Despawn);
    assert_eq!(palette_ui_action(false, false, true), PaletteUiAction::Nothing);
    assert!(preview_highlighted(90, SelectedBrick { type_id: Some(90) }));
    assert!(!preview_highlighted(20, SelectedBrick { type_id: None }));
}

fn fallback() -> FallbackRegistry {
    FallbackRegistry::new(FallbackHandles {
        ball: 1,
        paddle: 2,
        brick: 3,
        sidewall: 4,
        ground: 5,
        background: 6,
        merkaba: 7,
    })
}

#[test]
fn fallback_warnings_are_logged_once() {
    let mut fb = fallback();
    assert!(fb.log_once("a".to_string()));
    assert!(!fb.log_once("a".to_string()));
    assert!(fb.log_once("b".to_string()));
    assert_eq!(fb.handle(FallbackMaterial::from(BaselineMaterialKind::Ground)), 5);
}

#[test]
fn canonical_materials_sync_and_choice() {
    let mut fb = fallback();
    let mut canonical = CanonicalMaterialIds::new();
    assert_eq!(
        baseline_material_handle(Some(&canonical), BaselineMaterialKind::Ball, "ctx"),
        MaterialChoice::Fallback(None)
    );
    canonical.sync(&vec![Some(100), None, Some(102), None, None, None, None], &mut fb);
    assert!(canonical.is_ready());
    assert_eq!(canonical.get(BaselineMaterialKind::Ball), Some(100));
    assert_eq!(canonical.get(BaselineMaterialKind::Paddle), Some(2));
    assert!(!fb.log_once("missing profile paddle/default; using fallback".to_string()));
    assert_eq!(
        baseline_material_handle(Some(&canonical), BaselineMaterialKind::Brick, "ctx"),
        MaterialChoice::Material(102)
    );
    assert_eq!(
        baseline_material_handle(None, BaselineMaterialKind::Brick, "ctx"),
        MaterialChoice::Fallback(Some("ctx: canonical handles unavailable; defaulting to 'brick/default'".to_string()))
    );
    assert_eq!(
        brick_type_material_handle(None, 42, "spawn"),
        MaterialChoice::Fallback(Some("spawn: no type variant for brick type 42".to_string()))
    );
    assert_eq!(use_fallback(&mut fb, FallbackMaterial::Merkaba, None), 7);
    assert_eq!(manifest_asset_path("bricks/a.png"), "textures/bricks/a.png");
    assert_eq!(manifest_asset_path("textures/x.png"), "textures/x.png");
}

#[test]
fn canonical_materials_reach_existing_objects() {
    let mut fb = fallback();
    let mut canonical = CanonicalMaterialIds::new();
    canonical.sync(&vec![Some(100), Some(101), Some(102), None, None, None, None], &mut fb);
    let slot = |material: u64, variant: Option<u64>, newly_added: bool| MaterialSlot { material, variant, newly_added };
    let mut paddles = vec![slot(0, None, false)];
    let mut balls = vec![slot(0, Some(500), true), slot(0, None, false)];
    let mut bricks = vec![slot(102, None, true), slot(0, None, true)];
    let u = apply_canonical_materials_to_existing_entities(Some(&canonical), false, &mut paddles, &mut balls, &mut bricks);
    assert_eq!(paddles[0].material, 0);
    assert_eq!(balls[0].material, 500);
    assert_eq!(balls[1].material, 0);
    assert_eq!(bricks[1].material, 102);
    assert_eq!((u.paddles, u.balls, u.bricks), (0, 1, 1));
    let u = apply_canonical_materials_to_existing_entities(Some(&canonical), true, &mut paddles, &mut balls, &mut bricks);
    assert_eq!(paddles[0].material, 101);
    assert_eq!(balls[1].material, 100);
    assert_eq!((u.paddles, u.balls, u.bricks), (1, 1, 0));
    let not_ready = CanonicalMaterialIds::new();
    let u = apply_canonical_materials_to_existing_entities(Some(&not_ready), true, &mut paddles, &mut balls, &mut bricks);
    assert_eq!((u.paddles, u.balls, u.bricks), (0, 0, 0));
}

#[test]
fn debug_texture_rows_rotate() {
    let data = uv_debug_texture_data();
    assert_eq!(data.len(), 256);
    assert_eq!(&data[0..4], &[255, 102, 159, 255]);
    assert_eq!(&data[32..36], &[236, 102, 255, 255]);
    assert_eq!(&data[36..40], &[255, 102, 159, 255]);
}

fn set(n: u32, ground: Option<&str>) -> LevelTextureSet {
    LevelTextureSet {
        level_number: n,
        ground_profile: ground.map(String::from),
        background_profile: None,
        sidewall_profile: None,
        notes: None,
    }
}

#[test]
fn level_overrides_and_presentation() {
    let overrides: HashMap<u32, LevelTextureSet> =
        index_level_overrides(vec![set(2, Some("ground/a")), set(3, None), set(2, Some("ground/b"))]);
    assert_eq!(overrides.len(), 2);
    let p = LevelPresentation::for_level(2, &overrides);
    assert_eq!(p.ground_profile().map(|s| s.as_str()), Some("ground/b"));
    let mut canonical = CanonicalMaterialIds::new();
    let mut fb = fallback();
    canonical.sync(&vec![None, None, None, None, Some(44), None, None], &mut fb);
    let c = resolve_override_or_canonical(&p, BaselineMaterialKind::Ground, Some(9), Some(&canonical));
    assert_eq!(c.source, MaterialSource::Material(9));
    let c = resolve_override_or_canonical(&p, BaselineMaterialKind::Ground, None, Some(&canonical));
    assert_eq!(c.source, MaterialSource::Material(44));
    assert_eq!(c.warning.as_deref(), Some("level 2: override profile 'ground/b' not found for Ground"));
    let c = resolve_override_or_canonical(&p, BaselineMaterialKind::Sidewall, None, None);
    assert_eq!(c.source, MaterialSource::Fallback);
    assert!(c.warning.is_none());
    let found = p.resolve_material(BaselineMaterialKind::Ground, Some(9));
    assert_eq!(found.material, Some(9));
    assert!(found.warning.is_none());
    let missing = p.resolve_material(BaselineMaterialKind::Ground, None);
    assert_eq!(missing.material, None);
    assert_eq!(
        missing.warning.as_deref(),
        Some("level 2: override profile 'ground/b' not found for Ground")
    );
    let none = p.resolve_material(BaselineMaterialKind::Sidewall, Some(9));
    assert_eq!(none.material, None);
    assert!(none.warning.is_none());
    let mut q = LevelPresentation::default();
    sync_level_presentation(&mut q, true, 3, Some(&overrides));
    assert_eq!(q.level_number(), 3);
    sync_level_presentation(&mut q, true, 5, None);
    assert_eq!(q.level_number(), 0);
}

#[test]
fn manifest_summaries() {
    let state = LevelSwitchState { ordered_levels: vec![3, 1], current_index: 1, pending_switch: true };
    let c = LevelSwitchStateContract::from_state(&state);
    assert_eq!(c.ordered_levels, vec![3, 1]);
    assert_eq!(c.current_index, 1);
    assert!(c.pending_switch);
    assert_eq!(object_class_label(ObjectClass::Brick), "Brick");
}

#[test]
fn type_variant_registry_rebuild() {
    let fb = fallback();
    let mut reg = TypeVariantRegistry::new();
    let v = |object_class: ObjectClass, type_id: u8, variant_material: Option<u64>, profile_material: Option<u64>| {
        VariantMaterial { object_class, type_id, variant_material, profile_material }
    };
    reg.rebuild(
        &vec![
            v(ObjectClass::Brick, 20, Some(900), Some(800)),
            v(ObjectClass::Ball, 20, None, Some(801)),
            v(ObjectClass::Merkaba, 0, None, None),
            v(ObjectClass::Brick, 20, None, None),
        ],
        &fb,
    );
    assert_eq!(reg.get(ObjectClass::Brick, 20), Some(3));
    assert_eq!(reg.get(ObjectClass::Ball, 20), Some(801));
    assert_eq!(reg.get(ObjectClass::Merkaba, 0), Some(7));
    assert_eq!(reg.get(ObjectClass::Ball, 21), None);
    reg.insert_for_tests(ObjectClass::Ball, 21, 55);
    assert_eq!(reg.get(ObjectClass::Ball, 21), Some(55));
}
