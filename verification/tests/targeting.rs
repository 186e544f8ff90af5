use pax_britannica::rng::LuaRng;
use pax_britannica::targeting::pick;
use pax_britannica::world::ActorId;

#[test]
fn an_empty_range_query_takes_no_draws() {
    let mut rng = LuaRng::new(0, 0);
    let before = rng.clone();
    assert_eq!(pick(&mut rng, &[]), None);
    assert_eq!(before, rng, "an empty query must not touch the stream");
}

#[test]
fn a_nonempty_range_query_takes_exactly_one_draw() {
    let mut rng = LuaRng::new(1, 0);
    let mut expected = rng.clone();
    expected.next_u64();
    assert_eq!(pick(&mut rng, &[ActorId(7)]), Some(ActorId(7)));
    assert_eq!(expected, rng);
}

#[test]
fn the_pick_is_the_roll_minus_one() {
    let candidates = [ActorId(3), ActorId(5), ActorId(8), ActorId(13), ActorId(21)];
    let mut rng = LuaRng::new(42, 0);
    let mut shadow = rng.clone();
    for _ in 0..50 {
        let roll = shadow.next_range(1, candidates.len() as i64);
        assert_eq!(pick(&mut rng, &candidates), Some(candidates[roll as usize - 1]));
        assert_eq!(rng, shadow);
    }
}
