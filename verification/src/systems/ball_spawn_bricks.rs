//! Ball-spawning bricks (types 37 to 39). Destroying brick 37 removes every
//! ball but the one that hit it; brick 38 spawns one ball flying back the
//! way the hitting ball came; brick 39 spawns two balls in a Y shape.

use vstd::prelude::*;
use std::collections::HashMap;

verus! {

/// How the spawned balls move, or that the other balls are removed.
#[derive(Debug, Clone, Copy, PartialEq, Eq, Structural)]
pub enum VelocityModifier {
    /// Remove every ball but the one that hit the brick.
    DespawnAll,
    /// One ball with the hitting ball's velocity reversed.
    Inverse,
    /// Two balls, turned left and right of the hitting ball's direction by
    /// this angle, in tenths of a degree.
    YShaped { angle_decidegrees: u16 },
}

/// What destroying a ball-spawning brick does.
#[derive(Debug, Clone, Copy, PartialEq, Eq)]
pub struct BrickSpawnRule {
    pub spawn_count: u8,
    pub velocity_modifier: VelocityModifier,
    pub name: &'static str,
}

/// The ball-spawning rules, by brick type.
#[derive(Debug, Clone)]
pub struct BrickSpawnConfig {
    pub brick_spawn_rules: HashMap<u8, BrickSpawnRule>,
}

impl Default for BrickSpawnConfig {
    /// Brick 37 despawns the other balls, 38 spawns one reversed ball, 39
    /// spawns two balls at 37.5 degrees.
    fn default() -> (c: Self)
        ensures
            c.brick_spawn_rules@.dom() == set![37u8, 38u8, 39u8],
            c.brick_spawn_rules@[37u8].spawn_count == 0,
            c.brick_spawn_rules@[37u8].velocity_modifier == VelocityModifier::DespawnAll,
            c.brick_spawn_rules@[37u8].name@ == "Red 1 (Despawn)"@,
            c.brick_spawn_rules@[38u8].spawn_count == 1,
            c.brick_spawn_rules@[38u8].velocity_modifier == VelocityModifier::Inverse,
            c.brick_spawn_rules@[38u8].name@ == "Red 2 (Spawn 1)"@,
            c.brick_spawn_rules@[39u8].spawn_count == 2,
            c.brick_spawn_rules@[39u8].velocity_modifier == (VelocityModifier::YShaped {
                angle_decidegrees: 375,
            }),
            c.brick_spawn_rules@[39u8].name@ == "Red 3 (Spawn 2)"@,
    {
        let mut rules: HashMap<u8, BrickSpawnRule> = HashMap::new();
        rules.insert(
            37,
            BrickSpawnRule {
                spawn_count: 0,
                velocity_modifier: VelocityModifier::DespawnAll,
                name: "Red 1 (Despawn)",
            },
        );
        rules.insert(
            38,
            BrickSpawnRule {
                spawn_count: 1,
                velocity_modifier: VelocityModifier::Inverse,
                name: "Red 2 (Spawn 1)",
            },
        );
        rules.insert(
            39,
            BrickSpawnRule {
                spawn_count: 2,
                velocity_modifier: VelocityModifier::YShaped { angle_decidegrees: 375 },
                name: "Red 3 (Spawn 2)",
            },
        );
        assert(rules@.dom() =~= set![37u8, 38u8, 39u8]);
        BrickSpawnConfig { brick_spawn_rules: rules }
    }
}

/// A destroyed brick, as the spawning logic reads it.
#[derive(Debug, Clone, Copy, PartialEq, Eq, Structural)]
pub struct DestroyedBrickInfo {
    pub brick_type: u8,
    /// The ball that destroyed it, by its bits.
    pub destroyed_by: Option<u64>,
}

/// One step of the ball-spawning work of a frame.
#[derive(Debug, Clone, Copy, PartialEq, Eq, Structural)]
pub enum BallSpawnAction {
    /// Remove every ball, those spawned this frame included, but `keep`.
    DespawnOthers { keep: u64 },
    /// Spawn one ball at the brick, with `from`'s velocity reversed.
    SpawnInverse { from: u64 },
    /// Spawn two balls at the brick, turned by the angle from `from`'s direction.
    SpawnYShaped { from: u64, angle_decidegrees: u16 },
}

/// The step for one destroyed brick: none when the brick spawns nothing,
/// when no ball is named, or when that ball is gone.
pub open spec fn spec_spawn_action(
    rules: Map<u8, BrickSpawnRule>,
    live_balls: Seq<u64>,
    e: DestroyedBrickInfo,
) -> Option<BallSpawnAction> {
    if !rules.contains_key(e.brick_type) {
        None
    } else {
        match e.destroyed_by {
            None => None,
            Some(b) => if !live_balls.contains(b) {
                None
            } else {
                match rules[e.brick_type].velocity_modifier {
                    VelocityModifier::DespawnAll => Some(BallSpawnAction::DespawnOthers { keep: b }),
                    VelocityModifier::Inverse => Some(BallSpawnAction::SpawnInverse { from: b }),
                    VelocityModifier::YShaped { angle_decidegrees } => Some(
                        BallSpawnAction::SpawnYShaped { from: b, angle_decidegrees },
                    ),
                }
            },
        }
    }
}

/// The steps for a frame's destroyed bricks, in order.
pub open spec fn spec_spawn_plan(
    rules: Map<u8, BrickSpawnRule>,
    live_balls: Seq<u64>,
    events: Seq<DestroyedBrickInfo>,
) -> Seq<BallSpawnAction>
    decreases events.len(),
{
    if events.len() == 0 {
        Seq::empty()
    } else {
        let rest = spec_spawn_plan(rules, live_balls, events.drop_last());
        match spec_spawn_action(rules, live_balls, events.last()) {
            Some(a) => rest.push(a),
            None => rest,
        }
    }
}

fn contains_ball(balls: &Vec<u64>, b: u64) -> (r: bool)
    ensures
        r == balls@.contains(b),
{
    let mut i: usize = 0;
    while i < balls.len()
        invariant
            i <= balls@.len(),
            forall|k: int| 0 <= k < i ==> balls@[k] != b,
        decreases balls@.len() - i,
    {
        if balls[i] == b {
            return true;
        }
        i += 1;
    }
    false
}

/// Plans the ball-spawning work of a frame from the destroyed bricks, given
/// the balls alive at the start of the frame.
pub fn plan_ball_spawns(
    config: &BrickSpawnConfig,
    live_balls: &Vec<u64>,
    events: &Vec<DestroyedBrickInfo>,
) -> (plan: Vec<BallSpawnAction>)
    ensures
        plan@ == spec_spawn_plan(config.brick_spawn_rules@, live_balls@, events@),
{
    let ghost rules = config.brick_spawn_rules@;
    let mut plan: Vec<BallSpawnAction> = Vec::new();
    let mut i: usize = 0;
    assert(events@.take(0) =~= Seq::<DestroyedBrickInfo>::empty());
    while i < events.len()
        invariant
            i <= events@.len(),
            rules == config.brick_spawn_rules@,
            plan@ == spec_spawn_plan(rules, live_balls@, events@.take(i as int)),
        decreases events@.len() - i,
    {
        let e = events[i];
        assert(events@.take(i + 1).drop_last() =~= events@.take(i as int));
        assert(events@.take(i + 1).last() == e);
        let action: Option<BallSpawnAction> = match config.brick_spawn_rules.get(&e.brick_type) {
            None => None,
            Some(rule) => match e.destroyed_by {
                None => None,
                Some(b) => if !contains_ball(live_balls, b) {
                    None
                } else {
                    match rule.velocity_modifier {
                        VelocityModifier::DespawnAll => Some(
                            BallSpawnAction::DespawnOthers { keep: b },
                        ),
                        VelocityModifier::Inverse => Some(BallSpawnAction::SpawnInverse { from: b }),
                        VelocityModifier::YShaped { angle_decidegrees } => Some(
                            BallSpawnAction::SpawnYShaped { from: b, angle_decidegrees },
                        ),
                    }
                },
            },
        };
        assert(action == spec_spawn_action(rules, live_balls@, e));
        match action {
            Some(a) => plan.push(a),
            None => {},
        }
        i += 1;
    }
    assert(events@.take(i as int) =~= events@);
    plan
}

} // verus!
