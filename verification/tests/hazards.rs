use brkrs::systems::ball_spawn_bricks::{
    plan_ball_spawns, BallSpawnAction, BrickSpawnConfig, DestroyedBrickInfo, VelocityModifier,
};
use brkrs::systems::collision_feedback::{
    feedback_allowed_for_state_opt, particle_bounds_valid, sample_particle_count,
    DEFAULT_MAX_PARTICLES, DEFAULT_MIN_PARTICLES,
};
use brkrs::game_state::GameState;
use brkrs::systems::gravity::{gravity_application_system, gravity_shift_for_brick, GravityShift};
use brkrs::systems::merkaba::{merkaba_paddle_hit_ball, LifeLossWatcher, MerkabaAngleState};
use brkrs::systems::paddle_size::{size_effect_for_brick, SizeEffectType};
use brkrs::systems::sea_mine::{
    detect_sea_mine_detonations, resolve_detonation, BlastTarget, Detonation, MineContact,
    SeaMineTriggerCause,
};

#[test]
fn default_spawn_rules() {
    let config = BrickSpawnConfig::default();
    assert_eq!(config.brick_spawn_rules.len(), 3);
    assert_eq!(config.brick_spawn_rules[&37].velocity_modifier, VelocityModifier::DespawnAll);
    assert_eq!(config.brick_spawn_rules[&38].spawn_count, 1);
    assert_eq!(
        config.brick_spawn_rules[&39].velocity_modifier,
        VelocityModifier::YShaped { angle_decidegrees: 375 }
    );
    assert_eq!(config.brick_spawn_rules[&39].name, "Red 3 (Spawn 2)");
}

#[test]
fn ball_spawn_plan_skips_unknown_and_gone_balls() {
    let config = BrickSpawnConfig::default();
    let live = vec![100u64, 101];
    let events = vec![
        DestroyedBrickInfo { brick_type: 20, destroyed_by: Some(100) },
        DestroyedBrickInfo { brick_type: 38, destroyed_by: Some(100) },
        DestroyedBrickInfo { brick_type: 39, destroyed_by: None },
        DestroyedBrickInfo { brick_type: 39, destroyed_by: Some(555) },
        DestroyedBrickInfo { brick_type: 39, destroyed_by: Some(101) },
        DestroyedBrickInfo { brick_type: 37, destroyed_by: Some(101) },
    ];
    let plan = plan_ball_spawns(&config, &live, &events);
    assert_eq!(
        plan,
        vec![
            BallSpawnAction::SpawnInverse { from: 100 },
            BallSpawnAction::SpawnYShaped { from: 101, angle_decidegrees: 375 },
            BallSpawnAction::DespawnOthers { keep: 101 },
        ]
    );
}

#[test]
fn sea_mines_go_off_once() {
    let contacts = vec![
        MineContact { mine: 1, other_is_border: false, other_is_paddle: false, other_is_trigger_brick: false },
        MineContact { mine: 1, other_is_border: false, other_is_paddle: true, other_is_trigger_brick: false },
        MineContact { mine: 1, other_is_border: true, other_is_paddle: false, other_is_trigger_brick: false },
        MineContact { mine: 2, other_is_border: true, other_is_paddle: true, other_is_trigger_brick: true },
        MineContact { mine: 3, other_is_border: false, other_is_paddle: false, other_is_trigger_brick: true },
    ];
    let ds = detect_sea_mine_detonations(&contacts);
    assert_eq!(
        ds,
        vec![
            Detonation { mine: 1, cause: SeaMineTriggerCause::Paddle },
            Detonation { mine: 2, cause: SeaMineTriggerCause::Wall },
            Detonation { mine: 3, cause: SeaMineTriggerCause::BrickGt90 },
        ]
    );
}

#[test]
fn blast_costs_a_life_for_the_paddle_or_the_last_ball() {
    let balls = vec![BlastTarget { entity: 10, in_radius: false }, BlastTarget { entity: 11, in_radius: true }];
    let paddles = vec![BlastTarget { entity: 20, in_radius: false }];
    let o = resolve_detonation(&balls, &paddles);
    assert_eq!(o.destroyed_balls, vec![11]);
    assert_eq!(o.life_lost_ball, None);
    let all_balls = vec![BlastTarget { entity: 10, in_radius: true }, BlastTarget { entity: 11, in_radius: true }];
    assert_eq!(resolve_detonation(&all_balls, &paddles).life_lost_ball, Some(10));
    let paddle_hit = vec![BlastTarget { entity: 20, in_radius: true }];
    let o = resolve_detonation(&balls, &paddle_hit);
    assert_eq!(o.destroyed_paddles, vec![20]);
    assert_eq!(o.life_lost_ball, Some(11));
    let outside = vec![BlastTarget { entity: 12, in_radius: false }];
    assert_eq!(resolve_detonation(&outside, &paddle_hit).life_lost_ball, Some(12));
    assert_eq!(resolve_detonation(&vec![], &paddle_hit).life_lost_ball, None);
}

#[test]
fn merkaba_angles_alternate_and_life_loss_is_seen() {
    let mut a = MerkabaAngleState::default();
    assert_eq!(a.next_sign(), 1);
    assert_eq!(a.next_sign(), -1);
    assert_eq!(a.next_sign(), 1);
    let mut w = LifeLossWatcher::default();
    assert!(!w.observe(3));
    assert!(!w.observe(3));
    assert!(w.observe(2));
    assert!(!w.observe(3));
    assert_eq!(merkaba_paddle_hit_ball(&vec![8, 9]), Some(8));
    assert_eq!(merkaba_paddle_hit_ball(&vec![]), None);
}

#[test]
fn gravity_and_paddle_bricks() {
    assert_eq!(gravity_shift_for_brick(21), Some(GravityShift::AlongY { y: 0 }));
    assert_eq!(gravity_shift_for_brick(22), Some(GravityShift::AlongY { y: 2 }));
    assert_eq!(gravity_shift_for_brick(23), Some(GravityShift::AlongY { y: 10 }));
    assert_eq!(gravity_shift_for_brick(24), Some(GravityShift::AlongY { y: 20 }));
    assert_eq!(gravity_shift_for_brick(25), Some(GravityShift::Random));
    assert_eq!(gravity_shift_for_brick(26), None);
    assert_eq!(size_effect_for_brick(30), Some(SizeEffectType::Shrink));
    assert_eq!(size_effect_for_brick(32), Some(SizeEffectType::Enlarge));
    assert_eq!(size_effect_for_brick(31), None);
}

#[test]
fn collision_feedback_particles() {
    assert!(feedback_allowed_for_state_opt(None));
    assert!(feedback_allowed_for_state_opt(Some(GameState::Playing)));
    assert!(!feedback_allowed_for_state_opt(Some(GameState::Paused)));
    assert!(particle_bounds_valid(DEFAULT_MIN_PARTICLES, DEFAULT_MAX_PARTICLES));
    assert!(!particle_bounds_valid(0, 4));
    assert!(!particle_bounds_valid(5, 4));
    let mut rng = rand::rng();
    for _ in 0..50 {
        let n = sample_particle_count(DEFAULT_MIN_PARTICLES, DEFAULT_MAX_PARTICLES, &mut rng);
        assert!((8..=16).contains(&n));
    }
    assert_eq!(sample_particle_count(7, 7, &mut rng), 7);
}

#[test]
fn last_valid_gravity_message_wins() {
    assert_eq!(gravity_application_system(&vec![true, false, true, false]), Some(2));
    assert_eq!(gravity_application_system(&vec![true]), Some(0));
    assert_eq!(gravity_application_system(&vec![false, false]), None);
    assert_eq!(gravity_application_system(&vec![]), None);
}
