use pax_britannica::the_one_button::{TheOneButton, PLAYERS};

#[test]
fn input_is_only_visible_after_it_is_latched() {
    let mut button = TheOneButton::new();
    button.keys[0] = true;
    assert!(
        !button.held(1),
        "the frame's view of input is fixed at latch"
    );

    button.latch();
    assert!(button.held(1));
}

#[test]
fn pressed_and_released_are_edges() {
    let mut button = TheOneButton::new();

    button.keys[1] = true;
    button.latch();
    assert!(button.pressed(2));
    assert!(!button.released(2));

    button.latch();
    assert!(!button.pressed(2), "still held is not pressed again");

    button.keys[1] = false;
    button.latch();
    assert!(button.released(2));
}

#[test]
fn players_are_independent() {
    let mut button = TheOneButton::new();
    button.keys[2] = true;
    button.latch();

    assert!(button.held(3));
    assert!(!button.held(1));
    assert!(!button.held(4));
}

#[test]
fn a_new_button_is_up_for_everyone() {
    let button = TheOneButton::new();
    for player in 1..=PLAYERS {
        assert!(!button.held(player));
        assert!(!button.pressed(player));
        assert!(!button.released(player));
    }
}

#[test]
fn a_button_is_never_pressed_and_released_at_once() {
    let mut button = TheOneButton::new();
    for frame in 0..40 {
        for player in 0..PLAYERS {
            button.keys[player] = (frame / (player + 1)) % 2 == 0;
        }
        button.latch();
        for player in 1..=PLAYERS {
            assert!(!(button.pressed(player) && button.released(player)));
        }
    }
}

#[test]
fn the_raw_input_is_written_and_read_per_player() {
    let mut button = TheOneButton::new();
    button.set_key(3, true);
    assert!(button.key(3));
    assert!(!button.key(1) && !button.key(2) && !button.key(4));
    // nothing is seen until the latch
    assert!(!button.held(3));
    button.latch();
    assert!(button.held(3) && button.pressed(3));
    button.set_key(3, false);
    assert!(button.held(3), "the frame's view stays put until the next latch");
    button.latch();
    assert!(!button.held(3) && button.released(3));
}
