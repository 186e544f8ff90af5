use pax_britannica::scripts::bomber_ai::{must_retarget, BomberState, Volley, VolleyTick, COOLDOWN_DURATION, MAX_SHOTS};

#[test]
fn a_volley_is_four_bombs_forty_frames_apart() {
    let mut volley = Volley::new();
    let mut fired = Vec::new();
    for frame in 1..=160 {
        match volley.tick() {
            VolleyTick::Wait => {}
            VolleyTick::Fire => fired.push((frame, false)),
            VolleyTick::FireLast => fired.push((frame, true)),
        }
    }
    assert_eq!(
        fired,
        [(40, false), (80, false), (120, false), (160, true)],
    );
    // rearmed for the next run at a target
    assert_eq!(volley.shots_counter(), MAX_SHOTS);
    assert_eq!(volley.cooldown_timer(), COOLDOWN_DURATION);
}

#[test]
fn four_bombs_then_it_leaves() {
    // 4 shots at one per 40 frames, and the last one sends it away
    let mut volley = Volley::new();
    let mut state = BomberState::Shoot;
    let mut bombs = 0;
    for _ in 0..(COOLDOWN_DURATION * MAX_SHOTS) {
        assert_eq!(state, BomberState::Shoot);
        match volley.tick() {
            VolleyTick::Wait => {}
            VolleyTick::Fire => bombs += 1,
            VolleyTick::FireLast => {
                bombs += 1;
                state = BomberState::MoveAway;
            }
        }
    }
    assert_eq!(bombs, MAX_SHOTS);
    assert_eq!(state, BomberState::MoveAway);
}

#[test]
fn a_bomber_rolls_for_a_whim_only_when_it_has_a_target() {
    assert!(must_retarget(None));
    assert!(!must_retarget(Some(pax_britannica::world::ActorId(3))));
}

#[test]
fn a_recall_sends_the_bomber_back_to_approaching() {
    for state in [BomberState::Approach, BomberState::Turn, BomberState::Shoot, BomberState::MoveAway] {
        assert_eq!(state.recalled(true), BomberState::Approach);
        assert_eq!(state.recalled(false), state);
    }
}

#[test]
fn the_plan_steps_approach_turn_shoot_leave() {
    assert_eq!(BomberState::Approach.after(false, true, true), BomberState::Approach);
    assert_eq!(BomberState::Approach.after(true, false, false), BomberState::Turn);
    assert_eq!(BomberState::Turn.after(true, false, true), BomberState::Turn);
    assert_eq!(BomberState::Turn.after(false, true, false), BomberState::Shoot);
    assert_eq!(BomberState::Shoot.after(true, true, false), BomberState::Shoot);
    assert_eq!(BomberState::Shoot.after(false, false, true), BomberState::MoveAway);
    assert_eq!(BomberState::MoveAway.after(true, true, true), BomberState::MoveAway);
}
