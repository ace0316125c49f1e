use brkrs::systems::audio::{
    brick_destroyed_sound, finish_sound, play_sound, ActiveAudioInstances, ActiveSounds,
    BrickDestroyed, LevelCompleted, LevelStarted, PlaybackDecision, SoundType,
};

#[test]
fn active_sounds_respects_limit() {
    let mut active = ActiveSounds::default();
    for _ in 0..4 {
        assert!(active.try_increment(SoundType::BrickDestroy));
    }
    assert!(!active.try_increment(SoundType::BrickDestroy));
    assert_eq!(active.count(SoundType::BrickDestroy), 4);
    active.decrement(SoundType::BrickDestroy);
    assert_eq!(active.count(SoundType::BrickDestroy), 3);
    assert!(active.try_increment(SoundType::BrickDestroy));
}

#[test]
fn active_sounds_tracks_types_independently() {
    let mut active = ActiveSounds::default();
    for _ in 0..4 {
        assert!(active.try_increment(SoundType::BrickDestroy));
    }
    assert!(active.try_increment(SoundType::WallBounce));
    assert_eq!(active.count(SoundType::WallBounce), 1);
}

#[test]
fn brick_destroyed_event_fields() {
    let event = BrickDestroyed { entity: u64::MAX, brick_type: 20 };
    assert_eq!(event.brick_type, 20);
}

#[test]
fn level_started_event_fields() {
    let event = LevelStarted { level_index: 5 };
    assert_eq!(event.level_index, 5);
}

#[test]
fn level_completed_event_fields() {
    let event = LevelCompleted { level_index: 3 };
    assert_eq!(event.level_index, 3);
}

#[test]
fn decrement_stops_at_zero() {
    let mut active = ActiveSounds::default();
    active.decrement(SoundType::UiBeep);
    assert_eq!(active.count(SoundType::UiBeep), 0);
}

#[test]
fn playback_gates_in_order() {
    let mut active = ActiveSounds::default();
    assert_eq!(play_sound(SoundType::PaddleHit, true, true, true, &mut active), PlaybackDecision::Muted);
    assert_eq!(play_sound(SoundType::PaddleHit, false, false, true, &mut active), PlaybackDecision::Silent);
    assert_eq!(
        play_sound(SoundType::PaddleHit, false, true, false, &mut active),
        PlaybackDecision::AssetMissing
    );
    assert_eq!(active.count(SoundType::PaddleHit), 0);
    for _ in 0..4 {
        assert_eq!(play_sound(SoundType::PaddleHit, false, true, true, &mut active), PlaybackDecision::Play);
    }
    assert_eq!(active.count(SoundType::PaddleHit), 4);
    assert_eq!(
        play_sound(SoundType::PaddleHit, false, true, true, &mut active),
        PlaybackDecision::LimitReached
    );
    assert_eq!(active.count(SoundType::PaddleHit), 4);
    assert_eq!(active.count(SoundType::LevelStart), 0);
}

#[test]
fn finished_sound_frees_its_slot() {
    let mut active = ActiveSounds::default();
    let mut instances = ActiveAudioInstances::default();
    assert_eq!(play_sound(SoundType::LevelComplete, false, true, true, &mut active), PlaybackDecision::Play);
    instances.register(42, SoundType::LevelComplete);
    assert_eq!(finish_sound(&mut instances, &mut active, 7), None);
    assert_eq!(active.count(SoundType::LevelComplete), 1);
    assert_eq!(finish_sound(&mut instances, &mut active, 42), Some(SoundType::LevelComplete));
    assert_eq!(active.count(SoundType::LevelComplete), 0);
    assert!(instances.instances.is_empty());
}

#[test]
fn multi_hit_bricks_have_no_destroy_sound() {
    assert_eq!(brick_destroyed_sound(&BrickDestroyed { entity: 1, brick_type: 11 }), None);
    assert_eq!(
        brick_destroyed_sound(&BrickDestroyed { entity: 1, brick_type: 20 }),
        Some(SoundType::BrickDestroy)
    );
}
