use brkrs::systems::contacts::{ball_and_other, kind_pair};
use brkrs::systems::multi_hit::{resolve_ball_brick_hit, BallBrickHit, MultiHitBrickHit};

#[test]
fn multi_hit_brick_hit_event_fields() {
    let event = MultiHitBrickHit { entity: u64::MAX, previous_type: 13, new_type: 12 };
    assert_eq!(event.previous_type, 13);
    assert_eq!(event.new_type, 12);
}

#[test]
fn multi_hit_brick_hit_event_clone() {
    let event = MultiHitBrickHit { entity: u64::MAX, previous_type: 10, new_type: 20 };
    let cloned = event.clone();
    assert_eq!(cloned.previous_type, event.previous_type);
    assert_eq!(cloned.new_type, event.new_type);
}

#[test]
fn ball_hit_damages_or_marks_brick() {
    assert_eq!(
        resolve_ball_brick_hit(5, 13),
        BallBrickHit::Damaged(MultiHitBrickHit { entity: 5, previous_type: 13, new_type: 12 })
    );
    assert_eq!(
        resolve_ball_brick_hit(5, 10),
        BallBrickHit::Damaged(MultiHitBrickHit { entity: 5, previous_type: 10, new_type: 20 })
    );
    assert_eq!(resolve_ball_brick_hit(5, 20), BallBrickHit::MarkForDespawn);
}

#[test]
fn collision_pairs_either_order() {
    assert_eq!(ball_and_other(1, true, 2, false), Some((1, 2)));
    assert_eq!(ball_and_other(1, false, 2, true), Some((2, 1)));
    assert_eq!(ball_and_other(1, false, 2, false), None);
    assert_eq!(kind_pair(7, true, false, 8, false, true), Some((7, 8)));
    assert_eq!(kind_pair(7, false, true, 8, true, false), Some((8, 7)));
    assert_eq!(kind_pair(7, true, false, 8, true, false), None);
}
