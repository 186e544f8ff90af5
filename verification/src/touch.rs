//! Touchscreen input: the screen quartered across the middle and down the
//! centre into one-button controllers.
//!
//! The quadrants run in reading order -- top left, top right, bottom left,
//! bottom right -- which is where a four-player match puts each factory, so a
//! thumb sits on the corner it plays. Fewer humans means fewer controllers, so
//! the spare quadrants are folded into the ones in play: two humans get halves
//! down the centre, and a lone human -- who always faces a CPU -- gets the
//! whole screen. Three split the top and share the bottom, matching a
//! three-player match's third factory sitting at the bottom centre.
//!
//! Which quadrant a pointer is in is a question about where it is on the
//! glass, answered by the platform layer; this decides what the quadrants
//! press.
use vstd::prelude::*;

use crate::the_one_button::{is_player, PLAYERS};

verus! {

/// The player each quadrant drives, in reading order, given the human roster.
pub open spec fn quadrant_players(humans: Seq<usize>) -> Seq<usize> {
    if humans.len() == 0 {
        seq![1usize, 2, 3, 4]
    } else if humans.len() == 1 {
        seq![humans[0], humans[0], humans[0], humans[0]]
    } else if humans.len() == 2 {
        seq![humans[0], humans[1], humans[0], humans[1]]
    } else if humans.len() == 3 {
        seq![humans[0], humans[1], humans[2], humans[2]]
    } else {
        humans.take(4)
    }
}

/// Which player each quadrant drives, in reading order, given the human roster.
///
/// `humans` is the player numbers of the human-controlled factories in the
/// running match, ascending, and empty on the menu.
pub fn quadrants(humans: &[usize]) -> (q: [usize; 4])
    ensures
        q@ == quadrant_players(humans@),
{
    let n = humans.len();
    if n == 0 {
        // the menu: every quadrant joins its player
        [1, 2, 3, 4]
    } else if n == 1 {
        [humans[0], humans[0], humans[0], humans[0]]
    } else if n == 2 {
        [humans[0], humans[1], humans[0], humans[1]]
    } else if n == 3 {
        [humans[0], humans[1], humans[2], humans[2]]
    } else {
        let q = [humans[0], humans[1], humans[2], humans[3]];
        assert(q@ =~= humans@.take(4));
        q
    }
}

/// Whether some pointer is down in a quadrant that drives `player`.
pub open spec fn pressed_by(touched: Seq<usize>, humans: Seq<usize>, player: usize) -> bool {
    exists|t: int| 0 <= t < touched.len() && quadrant_players(humans)[touched[t] as int] == player
}

/// The button state each player gets from the quadrants that pointers are
/// down in (`touched`, each one of 0 to 3 in reading order).
///
/// Several pointers in one quadrant are one button. A pointer may only land
/// on a quadrant that drives one of the four players.
pub fn buttons(touched: &[usize], humans: &[usize]) -> (keys: [bool; PLAYERS])
    requires
        forall|t: int|
            0 <= t < touched@.len() ==> touched@[t] < 4 && is_player(
                quadrant_players(humans@)[#[trigger] touched@[t] as int],
            ),
    ensures
        forall|p: usize| is_player(p) ==> keys@[p - 1] == pressed_by(touched@, humans@, p),
{
    let quadrants = quadrants(humans);

    let mut keys = [false, false, false, false];
    let mut k: usize = 0;
    while k < touched.len()
        invariant
            k <= touched@.len(),
            quadrants@ == quadrant_players(humans@),
            forall|t: int|
                0 <= t < touched@.len() ==> touched@[t] < 4 && is_player(
                    quadrant_players(humans@)[#[trigger] touched@[t] as int],
                ),
            keys@.len() == PLAYERS,
            forall|p: usize|
                is_player(p) ==> keys@[p - 1] == exists|t: int|
                    0 <= t < k && quadrant_players(humans@)[touched@[t] as int] == p,
        decreases touched@.len() - k,
    {
        let player = quadrants[touched[k]];
        keys.set(player - 1, true);
        proof {
            assert forall|p: usize| is_player(p) implies keys@[p - 1] == exists|t: int|
                0 <= t < k + 1 && quadrant_players(humans@)[touched@[t] as int] == p by {
                if quadrant_players(humans@)[touched@[k as int] as int] == p {
                    assert(0 <= k < k + 1);
                }
            }
        }
        k = k + 1;
    }
    keys
}

/// On the menu every quadrant joins its own player: tapping quadrant `q`
/// presses player `q + 1` and no one else.
pub proof fn lemma_menu_quadrant_joins_its_player(q: usize, player: usize)
    requires
        q < 4,
        is_player(player),
    ensures
        pressed_by(seq![q], Seq::empty(), player) <==> player == q + 1,
{
    if player == q + 1 {
        assert(seq![q][0] == q);
    }
}

/// A lone human owns the whole screen: a pointer anywhere presses their
/// button, and no other.
pub proof fn lemma_lone_human_owns_the_screen(human: usize, q: usize, player: usize)
    requires
        q < 4,
    ensures
        pressed_by(seq![q], seq![human], player) <==> player == human,
{
    if player == human {
        assert(seq![q][0] == q);
    }
}

/// Two humans split the screen down the centre: the left quadrants drive the
/// first, the right ones the second.
pub proof fn lemma_two_humans_split_down_the_centre(left: usize, right: usize, q: usize)
    requires
        q < 4,
    ensures
        quadrant_players(seq![left, right])[q as int] == if q % 2 == 0 {
            left
        } else {
            right
        },
{
}

/// Once a match is running, a pointer only ever presses a human's button.
pub proof fn lemma_only_humans_are_pressed(touched: Seq<usize>, humans: Seq<usize>, player: usize)
    requires
        humans.len() > 0,
        forall|t: int| 0 <= t < touched.len() ==> touched[t] < 4,
        pressed_by(touched, humans, player),
    ensures
        humans.contains(player),
{
    let t = choose|t: int|
        0 <= t < touched.len() && quadrant_players(humans)[touched[t] as int] == player;
    let q = touched[t] as int;
    if humans.len() == 1 {
        assert(humans[0] == player);
    } else if humans.len() == 2 {
        if q % 2 == 0 {
            assert(humans[0] == player);
        } else {
            assert(humans[1] == player);
        }
    } else if humans.len() == 3 {
        if q < 2 {
            assert(humans[q] == player);
        } else {
            assert(humans[2] == player);
        }
    } else {
        assert(humans[q] == player);
    }
}

} // verus!
