use pax_britannica::scripts::collision::{
    candidate_pairs, can_hit, hit, CollisionType, Contact, Hit,
};
use pax_britannica::world::ActorId;

fn contact(actor: usize, collision_type: CollisionType, player: usize) -> Contact {
    Contact { actor: ActorId(actor), collision_type, player }
}

/// The hits among bodies that all overlap one another: every candidate, in
/// the order the checker tests them.
fn hits_when_all_overlap(bodies: &[Contact]) -> Vec<Hit> {
    candidate_pairs(bodies)
        .into_iter()
        .map(|(i, j)| hit(&bodies[i], &bodies[j]))
        .collect()
}

#[test]
fn bullet_hits_an_enemy_ship() {
    // the checker itself is actor 0
    let bodies = [
        contact(1, CollisionType::Ship, 1),
        contact(2, CollisionType::Bullet, 2),
    ];
    assert_eq!(
        hits_when_all_overlap(&bodies),
        [Hit { ship: ActorId(1), bullet: ActorId(2) }],
    );
}

#[test]
fn hit_is_normalised_regardless_of_registration_order() {
    // same pair, bullet registered first
    let bodies = [
        contact(1, CollisionType::Bullet, 2),
        contact(2, CollisionType::Ship, 1),
    ];
    assert_eq!(
        hits_when_all_overlap(&bodies),
        [Hit { ship: ActorId(2), bullet: ActorId(1) }],
    );
}

#[test]
fn friendly_fire_is_ignored() {
    let bodies = [
        contact(1, CollisionType::Ship, 1),
        contact(2, CollisionType::Bullet, 1),
    ];
    assert!(hits_when_all_overlap(&bodies).is_empty());
}

#[test]
fn ships_do_not_collide_with_each_other() {
    let bodies = [
        contact(1, CollisionType::Ship, 1),
        contact(2, CollisionType::Ship, 2),
    ];
    assert!(hits_when_all_overlap(&bodies).is_empty());
}

#[test]
fn bullets_do_not_collide_with_each_other() {
    let a = contact(1, CollisionType::Bullet, 1);
    let b = contact(2, CollisionType::Bullet, 2);
    assert!(!can_hit(&a, &b));
}

#[test]
fn pairs_come_in_registration_order() {
    let bodies = [
        contact(10, CollisionType::Ship, 1),
        contact(11, CollisionType::Bullet, 2),
        contact(12, CollisionType::Bullet, 1),
        contact(13, CollisionType::Ship, 2),
        contact(14, CollisionType::Bullet, 3),
    ];
    assert_eq!(
        candidate_pairs(&bodies),
        [(0, 1), (0, 4), (2, 3), (3, 4)],
    );
    assert_eq!(
        hits_when_all_overlap(&bodies)[..2],
        [
            Hit { ship: ActorId(10), bullet: ActorId(11) },
            Hit { ship: ActorId(10), bullet: ActorId(14) },
        ],
    );
}

#[test]
fn no_bodies_no_pairs() {
    assert!(candidate_pairs(&[]).is_empty());
    assert!(candidate_pairs(&[contact(1, CollisionType::Ship, 1)]).is_empty());
}
