use pax_britannica::scripts::production::{production_step, UnitType, BUILDING_SPEED};

#[test]
fn each_unit_has_its_price() {
    assert_eq!(UnitType::Fighter.cost(), 50);
    assert_eq!(UnitType::Bomber.cost(), 170);
    assert_eq!(UnitType::Frigate.cost(), 360);
    assert_eq!(UnitType::Upgrade.cost(), 1080);
}

#[test]
fn a_boundary_buys_the_cheaper_unit() {
    assert_eq!(UnitType::for_cost(0), None);
    assert_eq!(UnitType::for_cost(50), None);
    assert_eq!(UnitType::for_cost(53), Some(UnitType::Fighter));
    assert_eq!(UnitType::for_cost(170), Some(UnitType::Fighter));
    assert_eq!(UnitType::for_cost(173), Some(UnitType::Bomber));
    assert_eq!(UnitType::for_cost(360), Some(UnitType::Bomber));
    assert_eq!(UnitType::for_cost(362), Some(UnitType::Frigate));
    assert_eq!(UnitType::for_cost(1080), Some(UnitType::Frigate));
    assert_eq!(UnitType::for_cost(1082), Some(UnitType::Upgrade));
}

#[test]
fn each_quadrant_maps_to_its_unit() {
    assert_eq!(UnitType::for_cost(0), None);
    assert_eq!(UnitType::for_cost(50), None);
    assert_eq!(UnitType::for_cost(51), Some(UnitType::Fighter));
    assert_eq!(UnitType::for_cost(171), Some(UnitType::Bomber));
    assert_eq!(UnitType::for_cost(361), Some(UnitType::Frigate));
    assert_eq!(UnitType::for_cost(1081), Some(UnitType::Upgrade));
}

#[test]
fn a_hold_commits_a_fighters_worth_immediately_then_creeps() {
    let amount: f64 = 500.0;
    let (floor, ceil) = (amount.floor() as i64, amount.ceil() as i64);

    let (committed, bought) = production_step(0, true, floor, ceil);
    assert_eq!(committed, UnitType::Fighter.cost() + BUILDING_SPEED);
    assert_eq!(bought, None);

    let (committed, bought) = production_step(committed, true, floor, ceil);
    assert_eq!(committed, UnitType::Fighter.cost() + 2 * BUILDING_SPEED);
    assert_eq!(bought, None);
}

#[test]
fn the_commitment_stops_climbing_when_the_resources_run_out() {
    // the creep is gated on having more than the cost, so a poor factory
    // parks at exactly a fighter no matter how long the button is held
    let amount: f64 = 51.0;
    let (floor, ceil) = (amount.floor() as i64, amount.ceil() as i64);
    let mut committed = 0;
    for _ in 0..10 {
        committed = production_step(committed, true, floor, ceil).0;
    }
    assert_eq!(committed, UnitType::Fighter.cost());
}

#[test]
fn releasing_exactly_on_a_boundary_builds_nothing() {
    assert_eq!(production_step(UnitType::Fighter.cost(), false, 500, 500), (0, None));
}

#[test]
fn releasing_builds_the_unit_the_needle_swept_past() {
    assert_eq!(
        production_step(UnitType::Bomber.cost() + 1, false, 500, 500),
        (0, Some(UnitType::Bomber))
    );
}

#[test]
fn an_upgrade_is_what_a_long_enough_hold_buys() {
    assert_eq!(
        production_step(UnitType::Upgrade.cost() + 1, false, 2000, 2000),
        (0, Some(UnitType::Upgrade))
    );
}

#[test]
fn half_a_resource_over_the_bound_is_enough_to_creep() {
    // 52.5 is more than 50 + 3 - 1, though its floor is not
    let amount: f64 = 52.5;
    assert_eq!(production_step(50, true, amount.floor() as i64, amount.ceil() as i64), (53, None));
    // an amount of exactly 52 is not enough
    assert_eq!(production_step(50, true, 52, 52), (50, None));
}

#[test]
fn a_factory_in_debt_does_not_jump_to_a_fighter() {
    let amount: f64 = -0.5;
    assert_eq!(production_step(0, true, amount.floor() as i64, amount.ceil() as i64), (0, None));
    // a poor but solvent one does, and then goes no further
    assert_eq!(production_step(0, true, 10, 10), (50, None));
}

#[test]
fn a_hold_never_buys_and_a_release_always_resets() {
    for committed in [0u64, 50, 51, 171, 361, 1081, 5000] {
        assert_eq!(production_step(committed, true, 100_000, 100_000).1, None);
        assert_eq!(production_step(committed, false, 100_000, 100_000).0, 0);
        assert_eq!(production_step(committed, false, 0, 0).1, UnitType::for_cost(committed));
    }
}
