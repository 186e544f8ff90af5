use pax_britannica::scripts::heatseeking_ai::{Guidance, HeatseekingAi, MAX_LIFETIME};
use pax_britannica::world::{Actor, World};

#[test]
fn a_missile_with_no_target_destroys_itself() {
    let world = World::new();
    let mut ai = HeatseekingAi::default();
    assert_eq!(ai.tick(&world), Guidance::SelfDestruct);
    assert_eq!(ai.age, 1);
}

#[test]
fn a_missile_expires_after_five_seconds() {
    let mut world = World::new();
    let target = world.spawn(Actor::new("fighter"));
    let mut ai = HeatseekingAi { age: 0, target: Some(target) };

    for _ in 0..MAX_LIFETIME {
        assert_eq!(ai.tick(&world), Guidance::Chase(target));
    }
    assert_eq!(ai.tick(&world), Guidance::SelfDestruct);
}

#[test]
fn a_missile_retargets_when_its_quarry_dies() {
    let mut world = World::new();
    let target = world.spawn(Actor::new("fighter"));
    let mut ai = HeatseekingAi { age: 0, target: Some(target) };
    assert_eq!(ai.tick(&world), Guidance::Chase(target));
    world.kill(target);
    // it looks for another rather than destroying itself
    assert_eq!(ai.tick(&world), Guidance::Retarget);
    assert_eq!(ai.age, 2);
}
