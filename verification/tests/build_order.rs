use pax_britannica::rng::LuaRng;
use pax_britannica::scripts::easy_enemy_production::{found_enemy, BuildOrder};
use pax_britannica::scripts::production::UnitType;
use pax_britannica::world::{Actor, World};

#[test]
fn the_first_order_matches_the_lua_interpreter() {
    // lua5.4 after math.randomseed(1): the CPU's first draw picks order 2
    let mut rng = LuaRng::new(1, 0);
    let order = BuildOrder::new(&mut rng);
    assert_eq!(order.script_index(), 2);
    assert_eq!(order.action_index(), 1);
}

#[test]
fn choosing_an_order_costs_exactly_one_draw() {
    let mut rng = LuaRng::new(1, 0);
    let mut expected = rng.clone();
    BuildOrder::new(&mut rng);
    expected.next_u64();
    assert_eq!(expected, rng);
}

#[test]
fn a_build_order_wraps_onto_a_freshly_chosen_one() {
    let mut rng = LuaRng::new(1, 0);
    let mut order = BuildOrder::new(&mut rng);

    let order_length = BuildOrder::script_len(order.script_index());
    let before = rng.clone();
    for _ in 1..order_length {
        order.advance(&mut rng);
    }
    assert_eq!(order.action_index(), order_length);
    assert_eq!(before, rng, "stepping within an order takes no draws");

    order.advance(&mut rng);
    assert_eq!(order.action_index(), 1);
    assert_ne!(before, rng, "a fresh order takes a draw");
}

#[test]
fn every_order_is_fighters_then_one_big_ship() {
    let mut rng = LuaRng::new(77, 0);
    let mut order = BuildOrder::new(&mut rng);
    for _ in 0..200 {
        let last = BuildOrder::script_len(order.script_index());
        let unit = order.current_unit();
        if order.action_index() < last {
            assert_eq!(unit, UnitType::Fighter);
        } else {
            assert!(unit == UnitType::Bomber || unit == UnitType::Frigate);
        }
        order.advance(&mut rng);
    }
}

#[test]
fn a_cpu_with_no_opponent_has_no_enemy() {
    let mut world = World::new();
    let mut cpu = Actor::new("factory");
    cpu.player = Some(2);
    world.spawn(cpu);
    assert!(!found_enemy(&world, 2));

    let mut human = Actor::new("factory");
    human.player = Some(1);
    let id = world.spawn(human);
    assert!(found_enemy(&world, 2));

    // a dying factory still counts until the cull
    world.kill(id);
    assert!(found_enemy(&world, 2));
    world.cull();
    assert!(!found_enemy(&world, 2));
}
