use rustracer::bounce::nearest_response;
use rustracer::{BounceAction, HitKind, RayBouncer};

#[test]
fn nearest_picks_smallest_key() {
    assert_eq!(nearest_response(&vec![7, 2, 9, 4]), Some(1));
}

#[test]
fn nearest_prefers_earliest_of_equal_keys() {
    assert_eq!(nearest_response(&vec![5, 3, 3]), Some(1));
    assert_eq!(nearest_response(&vec![4, 4, 4]), Some(0));
}

#[test]
fn nearest_of_empty_scene_is_none() {
    assert_eq!(nearest_response(&vec![]), None);
}

#[test]
fn nearest_orders_float_distances_by_bits() {
    let misses = f32::INFINITY.to_bits();
    let keys = vec![misses, 2.5f32.to_bits(), 0.75f32.to_bits(), misses];
    assert_eq!(nearest_response(&keys), Some(2));
    assert_eq!(nearest_response(&vec![misses, misses]), Some(0));
}

#[test]
fn fresh_bouncer_intersects() {
    let b = RayBouncer::new(8);
    assert_eq!(b.depth(), 0);
    assert_eq!(b.kind(), HitKind::NormalHit);
    assert_eq!(b.action(), BounceAction::Intersect);
}

#[test]
fn zero_budget_finishes_at_once() {
    assert_eq!(RayBouncer::new(0).action(), BounceAction::Finish);
}

#[test]
fn advance_takes_nearest_kind() {
    let mut b = RayBouncer::new(8);
    let chosen = b.advance(&vec![9, 4, 6], &vec![HitKind::LastHit, HitKind::NormalHit, HitKind::LastHit]);
    assert_eq!(chosen, Some(1));
    assert_eq!(b.depth(), 1);
    assert_eq!(b.kind(), HitKind::NormalHit);
    assert_eq!(b.action(), BounceAction::Intersect);
}

#[test]
fn last_hit_ends_path() {
    let mut b = RayBouncer::new(8);
    let chosen = b.advance(&vec![9, 4], &vec![HitKind::NormalHit, HitKind::LastHit]);
    assert_eq!(chosen, Some(1));
    assert_eq!(b.kind(), HitKind::LastHit);
    assert_eq!(b.action(), BounceAction::Finish);
}

#[test]
fn empty_scene_escapes() {
    let mut b = RayBouncer::new(8);
    assert_eq!(b.advance(&vec![], &vec![]), None);
    assert_eq!(b.depth(), 1);
    assert_eq!(b.kind(), HitKind::LastHit);
    assert_eq!(b.action(), BounceAction::Finish);
}

#[test]
fn budget_ends_path() {
    let mut b = RayBouncer::new(3);
    let mut steps = 0;
    while b.action() == BounceAction::Intersect {
        assert_eq!(b.advance(&vec![1], &vec![HitKind::NormalHit]), Some(0));
        steps += 1;
    }
    assert_eq!(steps, 3);
    assert_eq!(b.depth(), 3);
    assert_eq!(b.kind(), HitKind::NormalHit);
}
