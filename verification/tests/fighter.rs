use pax_britannica::blueprints;
use pax_britannica::scripts::fighter_ai::FighterAi;
use pax_britannica::world::World;

#[test]
fn a_fresh_fighter_counts_as_on_screen() {
    let ai = FighterAi::new();
    assert!(!ai.running);
    assert_eq!(ai.target, None);
    assert!(ai.on_screen);
}

#[test]
fn a_fighter_spawned_offscreen_retargets_on_its_first_frame() {
    let ai = FighterAi::new();
    assert!(ai.must_retarget(false, false));
    assert!(!ai.must_retarget(true, false));
}

#[test]
fn a_fighter_offscreen_all_along_does_not_retarget_for_it() {
    let mut ai = FighterAi::new();
    ai.on_screen = false;
    assert!(!ai.must_retarget(false, false));
    assert!(ai.must_retarget(false, true));
}

#[test]
fn no_target_and_a_dead_target_are_both_gone() {
    let mut world = World::new();
    let bomber = world.spawn(blueprints::bomber(2));
    let mut ai = FighterAi::new();
    assert!(ai.target_gone(&world));
    ai.target = Some(bomber);
    assert!(!ai.target_gone(&world));
    world.kill(bomber);
    assert!(ai.target_gone(&world));
}

#[test]
fn an_empty_fighter_starts_running() {
    let mut ai = FighterAi::new();
    ai.settle(true, false);
    assert!(ai.running);
}

#[test]
fn a_running_fighter_stops_once_reloaded_and_clear() {
    let mut ai = FighterAi::new();
    ai.running = true;
    ai.settle(false, false);
    assert!(!ai.running);
}

#[test]
fn a_running_fighter_keeps_running_while_too_close_or_empty() {
    let mut ai = FighterAi::new();
    ai.running = true;
    ai.settle(false, true);
    assert!(ai.running);
    ai.settle(true, false);
    assert!(ai.running);
}

#[test]
fn a_charging_fighter_with_rounds_keeps_charging() {
    let mut ai = FighterAi::new();
    ai.settle(false, true);
    assert!(!ai.running);
}
