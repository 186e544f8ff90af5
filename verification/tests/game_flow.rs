use pax_britannica::scripts::game_flow::{
    anyone_joined, joined_players, match_roster, GameFlow, State, GAME_OVER_FRAMES,
};
use pax_britannica::world::ActorId;

#[test]
fn state_names_are_the_logged_ones() {
    assert_eq!(State::Init.name(), "init");
    assert_eq!(State::PlayerSelect.name(), "player_select");
    assert_eq!(State::InGame.name(), "in_game");
}

#[test]
fn a_new_scene_machine_starts_at_init() {
    let flow = GameFlow::new();
    assert_eq!(flow.state, Some(State::Init));
    assert!(flow.selectors.is_empty());
    assert_eq!(flow.splash, None);
    assert_eq!(flow.game_over_timer, 0);
}

#[test]
fn building_the_menu_waits_for_players() {
    let mut flow = GameFlow::new();
    flow.menu_built(vec![ActorId(1), ActorId(2), ActorId(3), ActorId(4)], ActorId(5));
    assert_eq!(flow.state, Some(State::PlayerSelect));
    assert_eq!(flow.selectors, [ActorId(1), ActorId(2), ActorId(3), ActorId(4)]);
    assert_eq!(flow.splash, Some(ActorId(5)));
}

#[test]
fn the_countdown_only_appears_once_somebody_joins() {
    assert!(!anyone_joined(&[false, false, false, false]));
    assert!(anyone_joined(&[false, false, true, false]));
    assert!(!anyone_joined(&[]));
}

#[test]
fn the_roster_is_the_picked_players_in_order() {
    assert_eq!(joined_players(&[false, true, false, true]), [2, 4]);
    assert_eq!(joined_players(&[true, true, true, true]), [1, 2, 3, 4]);
    assert_eq!(joined_players(&[false; 4]), Vec::<usize>::new());
}

#[test]
fn a_lone_player_is_given_the_other_of_the_first_two_as_a_cpu() {
    for (human, expected_cpu) in [(1, 2), (2, 1), (3, 1), (4, 1)] {
        let (players, cpu) = match_roster(&[human]);
        assert_eq!(players, [human, expected_cpu]);
        assert_eq!(cpu, Some(expected_cpu), "the added player is the CPU, and only it");
    }
}

#[test]
fn several_players_play_without_a_cpu() {
    let (players, cpu) = match_roster(&[1, 3, 4]);
    assert_eq!(players, [1, 3, 4]);
    assert_eq!(cpu, None);
}

#[test]
fn a_match_with_two_factories_standing_never_times_out() {
    let mut flow = GameFlow::new();
    flow.match_begun();
    for _ in 0..GAME_OVER_FRAMES + 10 {
        assert!(!flow.game_over_tick(2));
    }
    assert_eq!(flow.game_over_timer, 0);
    assert_eq!(flow.state, Some(State::InGame));
}

#[test]
fn the_game_over_fade_is_respawned_every_frame_after_the_timer_expires() {
    // deliberate quirk: there is no guard here, so sixty fades pile up
    // before the first one lands and switches the scene
    let mut flow = GameFlow::new();
    flow.match_begun();
    for _ in 0..GAME_OVER_FRAMES {
        assert!(!flow.game_over_tick(1));
    }
    assert_eq!(flow.game_over_timer, GAME_OVER_FRAMES);
    assert!(flow.game_over_tick(1));
    assert!(flow.game_over_tick(0));
}

#[test]
fn callbacks_leave_the_machine_without_a_state() {
    let mut flow = GameFlow::new();
    flow.await_callback();
    assert_eq!(flow.state, None);
}
