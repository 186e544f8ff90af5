use pax_britannica::the_one_button::PLAYERS;
use pax_britannica::touch::{self, quadrants};

/// A pointer on the glass, as fractions of the window, y down.
type Pointer = (f64, f64);

/// The quadrant a pointer is in, in reading order. Dead centre belongs to
/// the bottom right.
fn quadrant(&(x, y): &Pointer) -> usize {
    usize::from(x >= 0.5) + 2 * usize::from(y >= 0.5)
}

fn buttons(pointers: &[Pointer], humans: &[usize]) -> [bool; PLAYERS] {
    let touched: Vec<usize> = pointers.iter().map(quadrant).collect();
    touch::buttons(&touched, humans)
}

#[test]
fn nothing_down_presses_nothing() {
    assert_eq!(buttons(&[], &[]), [false; PLAYERS]);
    assert_eq!(buttons(&[], &[1, 2]), [false; PLAYERS]);
}

#[test]
fn the_menu_joins_the_player_whose_quadrant_was_tapped() {
    assert_eq!(buttons(&[(0.25, 0.25)], &[]), [true, false, false, false]);
    assert_eq!(buttons(&[(0.75, 0.25)], &[]), [false, true, false, false]);
    assert_eq!(buttons(&[(0.25, 0.75)], &[]), [false, false, true, false]);
    assert_eq!(buttons(&[(0.75, 0.75)], &[]), [false, false, false, true]);
}

#[test]
fn the_quadrants_meet_at_the_middle() {
    assert_eq!(buttons(&[(0.5, 0.5)], &[]), [false, false, false, true]);
    assert_eq!(buttons(&[(0.499_999, 0.499_999)], &[]), [true, false, false, false]);
    assert_eq!(buttons(&[(0.0, 0.0)], &[]), [true, false, false, false]);
    assert_eq!(buttons(&[(1.0, 1.0)], &[]), [false, false, false, true]);
}

#[test]
fn four_thumbs_press_four_buttons() {
    let corners = [(0.1, 0.1), (0.9, 0.1), (0.1, 0.9), (0.9, 0.9)];
    assert_eq!(buttons(&corners, &[]), [true; PLAYERS]);
    assert_eq!(buttons(&corners, &[1, 2, 3, 4]), [true; PLAYERS]);
}

#[test]
fn several_pointers_in_one_quadrant_are_one_button() {
    assert_eq!(
        buttons(&[(0.1, 0.1), (0.2, 0.2), (0.3, 0.3)], &[1, 2, 3, 4]),
        [true, false, false, false]
    );
}

#[test]
fn two_humans_split_the_screen_down_the_centre() {
    for y in [0.1, 0.9] {
        assert_eq!(buttons(&[(0.1, y)], &[1, 2]), [true, false, false, false], "left at y {y}");
        assert_eq!(buttons(&[(0.9, y)], &[1, 2]), [false, true, false, false], "right at y {y}");
    }
}

#[test]
fn three_humans_split_the_top_and_share_the_bottom() {
    assert_eq!(buttons(&[(0.1, 0.1)], &[1, 2, 3]), [true, false, false, false]);
    assert_eq!(buttons(&[(0.9, 0.1)], &[1, 2, 3]), [false, true, false, false]);
    for x in [0.1, 0.9] {
        assert_eq!(
            buttons(&[(x, 0.9)], &[1, 2, 3]),
            [false, false, true, false],
            "the bottom half is the third player's, at x {x}"
        );
    }
}

#[test]
fn a_lone_human_owns_the_whole_screen() {
    for pointer in [(0.1, 0.1), (0.9, 0.9)] {
        assert_eq!(buttons(&[pointer], &[1]), [true, false, false, false], "player 1 alone, pointer at {pointer:?}");
        assert_eq!(buttons(&[pointer], &[2]), [false, true, false, false], "player 2 alone, pointer at {pointer:?}");
    }
}

#[test]
fn a_lone_human_is_pressed_once_however_many_thumbs_land() {
    assert_eq!(
        buttons(&[(0.1, 0.1), (0.6, 0.4), (0.95, 0.9)], &[2]),
        [false, true, false, false]
    );
}

#[test]
fn the_quadrants_follow_the_roster_rather_than_the_player_numbers() {
    assert_eq!(buttons(&[(0.1, 0.5)], &[3, 4]), [false, false, true, false]);
    assert_eq!(buttons(&[(0.9, 0.5)], &[3, 4]), [false, false, false, true]);
    assert_eq!(buttons(&[(0.9, 0.9)], &[2, 3, 4]), [false, false, false, true]);
}

#[test]
fn the_quadrant_table_for_each_roster_size() {
    assert_eq!(quadrants(&[]), [1, 2, 3, 4]);
    assert_eq!(quadrants(&[3]), [3, 3, 3, 3]);
    assert_eq!(quadrants(&[2, 4]), [2, 4, 2, 4]);
    assert_eq!(quadrants(&[1, 2, 4]), [1, 2, 4, 4]);
    assert_eq!(quadrants(&[1, 2, 3, 4]), [1, 2, 3, 4]);
}
