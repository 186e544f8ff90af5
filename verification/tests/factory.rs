use pax_britannica::scripts::factory_ai::FactoryAi;
use pax_britannica::rng::LuaRng;
use pax_britannica::scripts::factory_damage::frame;
use pax_britannica::scripts::ship::{FactoryDeath, DEATH_COUNTER};

#[test]
fn the_art_cycles_every_four_frames_over_three_frames() {
    let frames: Vec<usize> = (0..13).map(frame).collect();
    assert_eq!(frames, [1, 1, 1, 1, 2, 2, 2, 2, 3, 3, 3, 3, 1]);
}

#[test]
fn the_art_cycle_counts_back_from_zero_too() {
    // division rounds toward zero, so -3..=3 all show the first frame
    let frames: Vec<usize> = (-9..=0).map(frame).collect();
    assert_eq!(frames, [2, 2, 3, 3, 3, 3, 1, 1, 1, 1]);
    assert!((1..=3).contains(&frame(i64::MIN)));
    assert!((1..=3).contains(&frame(i64::MAX)));
}

#[test]
fn a_factory_ai_holds_nothing() {
    assert_eq!(FactoryAi::default(), FactoryAi {});
}

#[test]
fn a_dying_factory_smoulders_a_hundred_frames_then_goes() {
    let mut death = FactoryDeath::new();
    let mut frames = 0;
    while !death.over() {
        death.count_down();
        frames += 1;
    }
    assert_eq!(frames, DEATH_COUNTER);
}

#[test]
fn the_first_secondary_explosion_goes_off_at_once() {
    // a hundred frames left, ten apart: the very first frame explodes, and
    // then every tenth
    let mut death = FactoryDeath::new();
    let mut exploded = Vec::new();
    for frame in 0..DEATH_COUNTER {
        if death.explodes() {
            exploded.push(frame);
        }
        death.count_down();
    }
    assert_eq!(exploded, [0, 10, 20, 30, 40, 50, 60, 70, 80, 90]);
}

#[test]
fn each_explosion_rerolls_the_spacing_with_one_draw() {
    let mut rng = LuaRng::new(1, 0);
    let mut shadow = rng.clone();
    let mut death = FactoryDeath::new();
    death.reroll(&mut rng);
    let spacing = shadow.next_range(6, 15);
    assert_eq!(rng, shadow);
    // the frames left are untouched, and the new spacing decides the next
    // explosion
    let mut left = DEATH_COUNTER as i64;
    let mut first = None;
    while !death.over() {
        if death.explodes() {
            first = Some(left);
            break;
        }
        death.count_down();
        left -= 1;
    }
    let first = first.expect("a multiple of the spacing lies below a hundred");
    assert_eq!(first % spacing, 0);
    assert!(DEATH_COUNTER as i64 - first < spacing);
}
