use pax_britannica::rng::LuaRng;

/// `math.random()`: the top 53 bits of a draw, scaled into `[0, 1)`.
fn next_f64(rng: &mut LuaRng) -> f64 {
    (rng.next_u64() >> 11) as f64 * (1.0 / (1u64 << 53) as f64)
}

// Every expected value below was produced by the lua5.4 binary itself.

#[test]
#[allow(clippy::excessive_precision)]
fn floats_match_lua_seed_1() {
    let mut rng = LuaRng::new(1, 0);
    let expected: [f64; 8] = [
        0.81558781554723059,
        0.98657750643457565,
        0.079330719590026022,
        0.49864849323368698,
        0.59181018547898889,
        0.83396886864931397,
        0.15454780904609333,
        0.26419587508692477,
    ];
    for (i, &want) in expected.iter().enumerate() {
        let got: f64 = next_f64(&mut rng);
        assert_eq!(got.to_bits(), want.to_bits(), "draw {i}: {got} != {want}");
    }
}

#[test]
#[allow(clippy::excessive_precision)]
fn floats_match_lua_seed_42() {
    let mut rng = LuaRng::new(42, 0);
    let expected: [f64; 8] = [
        0.93081217803956817,
        0.45178389935924312,
        0.54688311243421495,
        0.79358935263827257,
        0.61731763595847267,
        0.0096006865506838013,
        0.96389739813422104,
        0.71097689661550945,
    ];
    for (i, &want) in expected.iter().enumerate() {
        let got: f64 = next_f64(&mut rng);
        assert_eq!(got.to_bits(), want.to_bits(), "draw {i}: {got} != {want}");
    }
}

#[test]
fn ranges_match_lua() {
    let mut rng = LuaRng::new(1, 0);
    assert_eq!(
        (0..8).map(|_| rng.next_range(1, 100)).collect::<Vec<_>>(),
        [30, 34, 45, 87, 94, 60, 94, 24]
    );
}

#[test]
fn power_of_two_ranges_match_lua() {
    // exercises project()'s masking fast path
    let mut rng = LuaRng::new(1, 0);
    assert_eq!(
        (0..8).map(|_| rng.next_range(0, 7)).collect::<Vec<_>>(),
        [5, 7, 1, 7, 4, 6, 5, 0]
    );
}

#[test]
fn full_range_does_not_overflow() {
    // width here is u64::MAX, the case that makes the naive `n - m` wrong
    let mut rng = LuaRng::new(1, 0);
    assert_eq!(
        (0..4)
            .map(|_| rng.next_range(i64::MIN, i64::MAX))
            .collect::<Vec<_>>(),
        [
            5821567666180820381,
            8975770733222381031,
            -7759978555394347615,
            -24930899432060937
        ]
    );
}

#[test]
fn floats_stay_in_unit_interval() {
    let mut rng = LuaRng::new(7, 0);
    for _ in 0..100_000 {
        let x = next_f64(&mut rng);
        assert!((0.0..1.0).contains(&x), "{x} out of range");
    }
}

#[test]
fn ranges_stay_in_bounds() {
    let mut rng = LuaRng::new(9, 0);
    for _ in 0..100_000 {
        let x = rng.next_range(-5, 11);
        assert!((-5..=11).contains(&x), "{x} out of range");
    }
}

#[test]
fn single_value_range_is_constant() {
    let mut rng = LuaRng::new(3, 0);
    for _ in 0..100 {
        assert_eq!(rng.next_range(4, 4), 4);
    }
}

#[test]
fn a_single_value_range_takes_exactly_one_draw() {
    let mut rng = LuaRng::new(5, 0);
    let mut counter = rng.clone();
    rng.next_range(-9, -9);
    counter.next_u64();
    assert_eq!(rng, counter);
}

#[test]
fn a_masked_range_never_redraws() {
    // a width of 2^k - 1 is masked, one draw per call
    let mut rng = LuaRng::new(11, 0);
    let mut counter = rng.clone();
    for _ in 0..50 {
        let raw = counter.next_u64();
        assert_eq!(rng.next_range(10, 25), 10 + (raw & 15) as i64);
    }
    assert_eq!(rng, counter);
}

#[test]
fn a_rejected_draw_is_redrawn() {
    // width 100 masks to 127: a masked draw above 100 must be thrown away
    let mut rng = LuaRng::new(1, 0);
    let mut counter = rng.clone();
    let mut draws = 0;
    for _ in 0..100 {
        rng.next_range(0, 100);
    }
    while counter != rng {
        counter.next_u64();
        draws += 1;
        assert!(draws <= 10_000);
    }
    assert!(draws > 100, "some draws were rejected, so more than one each");
}

#[test]
fn the_same_seed_gives_the_same_stream() {
    let mut a = LuaRng::new(1234, 7);
    let mut b = LuaRng::new(1234, 7);
    for _ in 0..1000 {
        assert_eq!(a.next_u64(), b.next_u64());
    }
    let mut c = LuaRng::new(1234, 8);
    assert_ne!(LuaRng::new(1234, 7).next_u64(), c.next_u64());
}
