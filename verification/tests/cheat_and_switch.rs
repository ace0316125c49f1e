use brkrs::level_loader::{initial_level_path, level_file_path, restart_current_level, restart_level_number};
use brkrs::systems::cheat_mode::{
    gate_destroy_all, gate_level_switch_key, gate_restart, toggle_cheat_mode, CheatModeState, KeyGate,
};
use brkrs::systems::level_switch::{
    builtin_level_slots, discover_level_slots, parse_level_number, plan_level_switch,
    queue_keyboard_requests, LevelSlot,
    LevelSwitchDirection, LevelSwitchOutcome, LevelSwitchRequested, LevelSwitchSource,
    LevelSwitchState,
};
use brkrs::systems::respawn::LivesState;
use brkrs::systems::scoring::ScoreState;
use brkrs::text::parse_u32;

fn cheat(active: bool) -> Option<CheatModeState> {
    Some(CheatModeState { active, activated_at: None })
}

#[test]
fn restart_blocks_when_cheat_inactive_emits_beep() {
    assert_eq!(gate_restart(cheat(false)), KeyGate::Beep);
}

#[test]
fn restart_allowed_when_cheat_active_no_beep() {
    assert_eq!(gate_restart(cheat(true)), KeyGate::Allow);
}

#[test]
fn queue_blocks_n_when_cheat_inactive_emits_beep() {
    assert_eq!(gate_level_switch_key(cheat(false)), KeyGate::Beep);
}

#[test]
fn queue_allows_n_when_cheat_active_emits_switch() {
    assert_eq!(gate_level_switch_key(cheat(true)), KeyGate::Allow);
}

#[test]
fn cheat_keys_without_cheat_state() {
    assert_eq!(gate_restart(None), KeyGate::Beep);
    assert_eq!(gate_level_switch_key(None), KeyGate::Ignore);
    assert!(!gate_destroy_all(None));
    assert!(!gate_destroy_all(cheat(false)));
    assert!(gate_destroy_all(cheat(true)));
}

#[test]
fn toggling_cheat_mode_resets_score_and_restores_lives() {
    let mut c = CheatModeState::default();
    let mut score = ScoreState { current_score: 1234, last_milestone_reached: 0 };
    let mut lives = LivesState { lives_remaining: 1, on_last_life: true };
    let t = toggle_cheat_mode(&mut c, &mut score, &mut lives, 10);
    assert!(t.active);
    assert_eq!(score.current_score, 0);
    assert_eq!(lives.lives_remaining, 3);
    lives.lives_remaining = 2;
    score.current_score = 50;
    let t = toggle_cheat_mode(&mut c, &mut score, &mut lives, 20);
    assert!(!t.active);
    assert_eq!(score.current_score, 0);
    assert_eq!(lives.lives_remaining, 2);
    assert_eq!(c.activated_at, Some(20));
}

#[test]
fn level_file_names_parse_like_u32() {
    assert_eq!(parse_level_number("level_001.ron"), Some(1));
    assert_eq!(parse_level_number("level_74.ron"), Some(74));
    assert_eq!(parse_level_number("level_+5.ron"), Some(5));
    assert_eq!(parse_level_number("level_.ron"), None);
    assert_eq!(parse_level_number("level_1a.ron"), None);
    assert_eq!(parse_level_number("level_4294967296.ron"), None);
    assert_eq!(parse_level_number("level_4294967295.ron"), Some(u32::MAX));
    assert_eq!(parse_level_number("level_-1.ron"), None);
    assert_eq!(parse_level_number("readme.txt"), None);
    assert_eq!(parse_level_number("level_007.json"), None);
    assert_eq!(parse_u32("+"), None);
    assert_eq!(parse_u32(""), None);
    assert_eq!(parse_u32("0042"), Some(42));
}

#[test]
fn discovered_levels_are_sorted_and_defaulted() {
    let names: Vec<String> = vec!["level_010.ron", "notes.md", "level_002.ron", "level_7.ron"]
        .into_iter()
        .map(String::from)
        .collect();
    let slots = discover_level_slots(&names);
    let numbers: Vec<u32> = slots.iter().map(|s| s.number).collect();
    assert_eq!(numbers, vec![2, 7, 10]);
    assert_eq!(slots[0].path, "assets/levels/level_002.ron");
    let none = discover_level_slots(&Vec::new());
    assert_eq!(none, vec![LevelSlot { number: 1, path: "assets/levels/level_001.ron".to_string() }]);
}

#[test]
fn equal_numbers_keep_listing_order() {
    let names: Vec<String> = vec!["level_03.ron", "level_1.ron", "level_003.ron"]
        .into_iter()
        .map(String::from)
        .collect();
    let slots = discover_level_slots(&names);
    let paths: Vec<&str> = slots.iter().map(|s| s.path.as_str()).collect();
    assert_eq!(
        paths,
        vec!["assets/levels/level_1.ron", "assets/levels/level_03.ron", "assets/levels/level_003.ron"]
    );
}

#[test]
fn next_and_previous_wrap_around() {
    let names: Vec<String> = vec!["level_001.ron", "level_002.ron", "level_005.ron"]
        .into_iter()
        .map(String::from)
        .collect();
    let state = LevelSwitchState::from_file_names(&names);
    assert_eq!(state.next_level_after(1).unwrap().number, 2);
    assert_eq!(state.next_level_after(2).unwrap().number, 5);
    assert_eq!(state.next_level_after(5).unwrap().number, 1);
    assert_eq!(state.previous_level_before(5).unwrap().number, 2);
    assert_eq!(state.previous_level_before(1).unwrap().number, 5);
    assert_eq!(state.next_level_after(0).unwrap().number, 1);
    assert_eq!(state.trigger_file(), ".level-switch-next");
    assert!(!state.is_transition_pending());
}

#[test]
fn switch_requests_are_planned() {
    let names: Vec<String> = vec!["level_001.ron", "level_002.ron"].into_iter().map(String::from).collect();
    let mut state = LevelSwitchState::from_file_names(&names);
    let next = LevelSwitchRequested { source: LevelSwitchSource::Keyboard, direction: LevelSwitchDirection::Next };
    let prev = LevelSwitchRequested { source: LevelSwitchSource::Automation, direction: LevelSwitchDirection::Previous };
    assert_eq!(plan_level_switch(&state, false, Some(1), &vec![]), LevelSwitchOutcome::NoRequest);
    match plan_level_switch(&state, false, Some(1), &vec![next, prev]) {
        LevelSwitchOutcome::Switch(slot) => assert_eq!(slot.number, 2),
        other => panic!("unexpected {:?}", other),
    }
    match plan_level_switch(&state, false, None, &vec![prev]) {
        LevelSwitchOutcome::Switch(slot) => assert_eq!(slot.number, 2),
        other => panic!("unexpected {:?}", other),
    }
    assert_eq!(plan_level_switch(&state, true, Some(1), &vec![next]), LevelSwitchOutcome::Busy);
    state.mark_transition_start();
    assert_eq!(plan_level_switch(&state, false, Some(1), &vec![next]), LevelSwitchOutcome::Busy);
    state.mark_transition_end();
    assert!(!state.is_transition_pending());
}

#[test]
fn builtin_levels_of_the_web_build() {
    let slots = builtin_level_slots();
    assert_eq!(slots.len(), 77);
    assert_eq!(slots[0].path, "assets/levels/level_001.ron");
    assert_eq!(slots[73].number, 74);
    assert_eq!(slots[73].path, "assets/levels/level_074.ron");
    assert_eq!(slots[76].number, 999);
    let state = LevelSwitchState::with_levels(slots);
    assert_eq!(state.ordered_levels().len(), 77);
}

#[test]
fn start_level_from_environment() {
    assert_eq!(initial_level_path(None, None), "assets/levels/level_001.ron");
    assert_eq!(initial_level_path(None, Some(" 12 ".to_string())), "assets/levels/level_012.ron");
    assert_eq!(initial_level_path(None, Some("x".to_string())), "assets/levels/level_001.ron");
    assert_eq!(
        initial_level_path(Some("/tmp/custom.ron".to_string()), Some("3".to_string())),
        "/tmp/custom.ron"
    );
    assert_eq!(level_file_path(1234), "assets/levels/level_1234.ron");
    assert_eq!(restart_level_number(None), 1);
    assert_eq!(restart_level_number(Some(9)), 9);
}

#[test]
fn restart_restores_three_lives() {
    let mut lives = LivesState { lives_remaining: 1, on_last_life: true };
    let path = restart_current_level(&mut lives, Some(4));
    assert_eq!(path, "assets/levels/level_004.ron");
    assert_eq!(lives.lives_remaining, 3);
    assert!(lives.on_last_life);
    assert_eq!(restart_current_level(&mut lives, None), "assets/levels/level_001.ron");
}

#[test]
fn level_switch_keys_follow_cheat_mode() {
    let both = queue_keyboard_requests(true, true, cheat(true));
    assert_eq!(both.beeps, 0);
    assert_eq!(
        both.requests,
        vec![
            LevelSwitchRequested {
                source: LevelSwitchSource::Keyboard,
                direction: LevelSwitchDirection::Next,
            },
            LevelSwitchRequested {
                source: LevelSwitchSource::Keyboard,
                direction: LevelSwitchDirection::Previous,
            },
        ]
    );
    let refused = queue_keyboard_requests(true, true, cheat(false));
    assert!(refused.requests.is_empty());
    assert_eq!(refused.beeps, 2);
    let unknown = queue_keyboard_requests(true, false, None);
    assert!(unknown.requests.is_empty());
    assert_eq!(unknown.beeps, 0);
    let idle = queue_keyboard_requests(false, false, cheat(true));
    assert!(idle.requests.is_empty());
    assert_eq!(idle.beeps, 0);
}
