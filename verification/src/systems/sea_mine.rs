//! Sea mines drift around the field and explode when they touch a wall, the
//! paddle or a trigger brick. The blast removes the balls and paddles inside
//! its radius; losing the paddle, or every ball, costs a life.

use vstd::prelude::*;

verus! {

/// What set a sea mine off.
#[derive(Debug, Clone, Copy, PartialEq, Eq, Structural)]
pub enum SeaMineTriggerCause {
    Wall,
    Paddle,
    BrickGt90,
}

/// A collision of a sea mine with another entity, as detection reads it.
#[derive(Debug, Clone, Copy, PartialEq, Eq, Structural)]
pub struct MineContact {
    /// The mine, by its bits.
    pub mine: u64,
    pub other_is_border: bool,
    pub other_is_paddle: bool,
    /// The other entity is a brick whose type sets mines off.
    pub other_is_trigger_brick: bool,
}

/// A mine that goes off, and why.
#[derive(Debug, Clone, Copy, PartialEq, Eq, Structural)]
pub struct Detonation {
    pub mine: u64,
    pub cause: SeaMineTriggerCause,
}

/// A wall comes first, then the paddle, then a trigger brick.
pub open spec fn spec_contact_cause(c: MineContact) -> Option<SeaMineTriggerCause> {
    if c.other_is_border {
        Some(SeaMineTriggerCause::Wall)
    } else if c.other_is_paddle {
        Some(SeaMineTriggerCause::Paddle)
    } else if c.other_is_trigger_brick {
        Some(SeaMineTriggerCause::BrickGt90)
    } else {
        None
    }
}

/// Whether `mine` already went off in `ds`.
pub open spec fn mine_listed(ds: Seq<Detonation>, mine: u64) -> bool {
    exists|k: int| 0 <= k < ds.len() && #[trigger] ds[k].mine == mine
}

/// The detonations of a frame: each contact with a cause sets its mine off,
/// unless that mine already went off this frame.
pub open spec fn spec_detonations(contacts: Seq<MineContact>) -> Seq<Detonation>
    decreases contacts.len(),
{
    if contacts.len() == 0 {
        Seq::empty()
    } else {
        let before = spec_detonations(contacts.drop_last());
        let c = contacts.last();
        if mine_listed(before, c.mine) {
            before
        } else {
            match spec_contact_cause(c) {
                Some(cause) => before.push(Detonation { mine: c.mine, cause }),
                None => before,
            }
        }
    }
}

fn contact_cause(c: &MineContact) -> (r: Option<SeaMineTriggerCause>)
    ensures
        r == spec_contact_cause(*c),
{
    if c.other_is_border {
        Some(SeaMineTriggerCause::Wall)
    } else if c.other_is_paddle {
        Some(SeaMineTriggerCause::Paddle)
    } else if c.other_is_trigger_brick {
        Some(SeaMineTriggerCause::BrickGt90)
    } else {
        None
    }
}

fn is_listed(ds: &Vec<Detonation>, mine: u64) -> (r: bool)
    ensures
        r == mine_listed(ds@, mine),
{
    let mut i: usize = 0;
    while i < ds.len()
        invariant
            i <= ds@.len(),
            forall|k: int| 0 <= k < i ==> ds@[k].mine != mine,
        decreases ds@.len() - i,
    {
        if ds[i].mine == mine {
            return true;
        }
        i += 1;
    }
    false
}

/// Turns a frame's mine collisions into detonations, at most one per mine.
pub fn detect_sea_mine_detonations(contacts: &Vec<MineContact>) -> (ds: Vec<Detonation>)
    ensures
        ds@ == spec_detonations(contacts@),
{
    let mut ds: Vec<Detonation> = Vec::new();
    let mut i: usize = 0;
    assert(contacts@.take(0) =~= Seq::<MineContact>::empty());
    while i < contacts.len()
        invariant
            i <= contacts@.len(),
            ds@ == spec_detonations(contacts@.take(i as int)),
        decreases contacts@.len() - i,
    {
        let c = contacts[i];
        assert(contacts@.take(i + 1).drop_last() =~= contacts@.take(i as int));
        assert(contacts@.take(i + 1).last() == c);
        if !is_listed(&ds, c.mine) {
            match contact_cause(&c) {
                Some(cause) => ds.push(Detonation { mine: c.mine, cause }),
                None => {},
            }
        }
        i += 1;
    }
    assert(contacts@.take(i as int) =~= contacts@);
    ds
}

/// A ball or paddle, and whether it is inside the blast radius.
#[derive(Debug, Clone, Copy, PartialEq, Eq, Structural)]
pub struct BlastTarget {
    pub entity: u64,
    pub in_radius: bool,
}

/// The entities of `ts` inside the blast radius, in order.
pub open spec fn in_radius(ts: Seq<BlastTarget>) -> Seq<u64>
    decreases ts.len(),
{
    if ts.len() == 0 {
        Seq::empty()
    } else {
        let before = in_radius(ts.drop_last());
        if ts.last().in_radius {
            before.push(ts.last().entity)
        } else {
            before
        }
    }
}

/// What one explosion destroys, and the ball whose loss it reports.
#[derive(Debug)]
pub struct BlastOutcome {
    pub destroyed_balls: Vec<u64>,
    pub destroyed_paddles: Vec<u64>,
    /// Set when a paddle or the last ball was destroyed: the first ball in
    /// the blast, else the first ball.
    pub life_lost_ball: Option<u64>,
}

pub open spec fn spec_life_lost_ball(balls: Seq<BlastTarget>, paddles: Seq<BlastTarget>) -> Option<
    u64,
> {
    let destroyed = in_radius(balls);
    let paddle_destroyed = in_radius(paddles).len() > 0;
    let last_ball_destroyed = destroyed.len() > 0 && destroyed.len() == balls.len();
    if paddle_destroyed || last_ball_destroyed {
        if destroyed.len() > 0 {
            Some(destroyed[0])
        } else if balls.len() > 0 {
            Some(balls[0].entity)
        } else {
            None
        }
    } else {
        None
    }
}

proof fn lemma_in_radius_len(ts: Seq<BlastTarget>)
    ensures
        in_radius(ts).len() <= ts.len(),
    decreases ts.len(),
{
    if ts.len() > 0 {
        lemma_in_radius_len(ts.drop_last());
    }
}

fn collect_in_radius(ts: &Vec<BlastTarget>) -> (r: Vec<u64>)
    ensures
        r@ == in_radius(ts@),
{
    let mut r: Vec<u64> = Vec::new();
    let mut i: usize = 0;
    assert(ts@.take(0) =~= Seq::<BlastTarget>::empty());
    while i < ts.len()
        invariant
            i <= ts@.len(),
            r@ == in_radius(ts@.take(i as int)),
        decreases ts@.len() - i,
    {
        assert(ts@.take(i + 1).drop_last() =~= ts@.take(i as int));
        assert(ts@.take(i + 1).last() == ts@[i as int]);
        if ts[i].in_radius {
            r.push(ts[i].entity);
        }
        i += 1;
    }
    assert(ts@.take(i as int) =~= ts@);
    r
}

/// Resolves an explosion over the balls and paddles of the field.
pub fn resolve_detonation(balls: &Vec<BlastTarget>, paddles: &Vec<BlastTarget>) -> (o: BlastOutcome)
    ensures
        o.destroyed_balls@ == in_radius(balls@),
        o.destroyed_paddles@ == in_radius(paddles@),
        o.life_lost_ball == spec_life_lost_ball(balls@, paddles@),
{
    let destroyed_balls = collect_in_radius(balls);
    let destroyed_paddles = collect_in_radius(paddles);
    proof {
        lemma_in_radius_len(balls@);
    }
    let last_ball_destroyed = destroyed_balls.len() > 0 && destroyed_balls.len() == balls.len();
    let life_lost_ball = if destroyed_paddles.len() > 0 || last_ball_destroyed {
        if destroyed_balls.len() > 0 {
            Some(destroyed_balls[0])
        } else if balls.len() > 0 {
            Some(balls[0].entity)
        } else {
            None
        }
    } else {
        None
    };
    BlastOutcome { destroyed_balls, destroyed_paddles, life_lost_ball }
}

/// A mine goes off at most once a frame, whatever the collisions.
pub proof fn detonations_are_distinct(contacts: Seq<MineContact>)
    ensures
        forall|i: int, j: int|
            0 <= i < j < spec_detonations(contacts).len() ==> spec_detonations(contacts)[i].mine
                != spec_detonations(contacts)[j].mine,
    decreases contacts.len(),
{
    if contacts.len() > 0 {
        detonations_are_distinct(contacts.drop_last());
        let before = spec_detonations(contacts.drop_last());
        let c = contacts.last();
        if !mine_listed(before, c.mine) {
            assert forall|i: int| 0 <= i < before.len() implies before[i].mine != c.mine by {
                if before[i].mine == c.mine {
                    assert(mine_listed(before, c.mine));
                }
            }
        }
    }
}

} // verus!
