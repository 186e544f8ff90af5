use pax_britannica::particles::{Ring, PARTICLE_COUNT};

#[test]
fn emitter_ring_wraps_without_growing() {
    let mut ring = Ring::new(5);
    let mut slots = Vec::new();
    for _ in 0..PARTICLE_COUNT + 10 {
        slots.push(ring.add());
    }
    assert_eq!(slots[PARTICLE_COUNT], 0, "the oldest slot is overwritten");
    assert_eq!(slots[PARTICLE_COUNT + 9], 9);
    assert_eq!(ring.live_count(), PARTICLE_COUNT);
}

#[test]
fn particles_expire() {
    let mut ring = Ring::new(3);
    let slot = ring.add();
    assert_eq!(ring.live_count(), 1);
    for _ in 0..3 {
        ring.age();
    }
    assert_eq!(ring.live_count(), 0);
    assert_eq!(ring.life_of(slot), 0);
}

#[test]
fn a_particle_counts_down_from_its_full_life() {
    let mut ring = Ring::new(40);
    assert_eq!(ring.full(), 40);
    let slot = ring.add();
    ring.age();
    ring.age();
    assert_eq!(ring.life_of(slot), 38);
}
