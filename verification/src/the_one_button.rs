//! The one button: the whole of the game's input.
//!
//! Each of the four players has exactly one button. Whoever drives the game
//! writes [`TheOneButton::keys`] before an update, and [`TheOneButton::latch`]
//! moves it into place as the `update_setup` phase runs, so every script sees a
//! single consistent view of the input for the frame, and `pressed`/`released`
//! are derived by comparing against the previous frame.
use vstd::prelude::*;

verus! {

/// Players are 1-based throughout the game.
pub const PLAYERS: usize = 4;

/// Whether `player` names one of the four players.
pub open spec fn is_player(player: usize) -> bool {
    1 <= player <= PLAYERS
}

#[derive(Clone, Copy, Debug, Default, PartialEq, Eq)]
pub struct TheOneButton {
    /// The raw input for the coming frame, written by the driver.
    pub keys: [bool; PLAYERS],
    /// The frame's latched view, which every script reads. Only
    /// [`TheOneButton::latch`] writes it.
    pub states: [bool; PLAYERS],
    /// The previous frame's latched view, which `pressed` and `released`
    /// compare against. Only [`TheOneButton::latch`] writes it.
    pub old_states: [bool; PLAYERS],
}

impl TheOneButton {
    /// Whether `player`'s button is down in the frame's latched view.
    pub open spec fn is_held(self, player: usize) -> bool {
        self.states@[player - 1]
    }

    /// Whether `player`'s button was down in the previous frame's view.
    pub open spec fn was_held(self, player: usize) -> bool {
        self.old_states@[player - 1]
    }

    /// Whether the driver has `player`'s button down for the coming frame:
    /// the raw input in [`TheOneButton::keys`], read by
    /// [`TheOneButton::key`] and written by [`TheOneButton::set_key`].
    pub open spec fn key_down(self, player: usize) -> bool {
        self.keys@[player - 1]
    }

    /// Whether `player`'s button went down this frame.
    pub open spec fn is_pressed(self, player: usize) -> bool {
        self.is_held(player) && !self.was_held(player)
    }

    /// Whether `player`'s button came up this frame.
    pub open spec fn is_released(self, player: usize) -> bool {
        !self.is_held(player) && self.was_held(player)
    }

    /// The driver's raw input for `player`, for the coming frame.
    pub fn key(&self, player: usize) -> (down: bool)
        requires
            is_player(player),
        ensures
            down == self.key_down(player),
    {
        self.keys[Self::index(player)]
    }

    /// Writes the driver's raw input for `player`; nobody else's input and
    /// nothing of the frame's latched view changes until the next latch.
    pub fn set_key(&mut self, player: usize, down: bool)
        requires
            is_player(player),
        ensures
            final(self).key_down(player) == down,
            forall|p: usize|
                is_player(p) && p != player ==> #[trigger] final(self).key_down(p) == old(
                    self,
                ).key_down(p),
            forall|p: usize| is_player(p) ==> #[trigger] final(self).is_held(p) == old(self).is_held(p),
            forall|p: usize|
                is_player(p) ==> #[trigger] final(self).was_held(p) == old(self).was_held(p),
    {
        let i = Self::index(player);
        self.keys.set(i, down);
    }

    pub fn new() -> (button: Self)
        ensures
            forall|p: usize| is_player(p) ==> !#[trigger] button.key_down(p),
            forall|p: usize| is_player(p) ==> !#[trigger] button.is_held(p),
            forall|p: usize| is_player(p) ==> !#[trigger] button.was_held(p),
    {
        TheOneButton {
            keys: [false, false, false, false],
            states: [false, false, false, false],
            old_states: [false, false, false, false],
        }
    }

    /// `update_setup`: yesterday's news becomes history, today's input becomes
    /// the state every script will read this frame.
    pub fn latch(&mut self)
        ensures
            forall|p: usize| is_player(p) ==> #[trigger] final(self).key_down(p) == old(self).key_down(p),
            forall|p: usize| is_player(p) ==> #[trigger] final(self).is_held(p) == old(self).key_down(p),
            forall|p: usize| is_player(p) ==> #[trigger] final(self).was_held(p) == old(self).is_held(p),
    {
        self.old_states = self.states;
        self.states = self.keys;
    }

    /// `held(i)`, for a 1-based player number.
    pub fn held(&self, player: usize) -> (held: bool)
        requires
            is_player(player),
        ensures
            held == self.is_held(player),
    {
        self.states[Self::index(player)]
    }

    /// `pressed(i)`: held now, not held last frame.
    pub fn pressed(&self, player: usize) -> (pressed: bool)
        requires
            is_player(player),
        ensures
            pressed == self.is_pressed(player),
            pressed == (self.is_held(player) && !self.was_held(player)),
    {
        let i = Self::index(player);
        self.states[i] && !self.old_states[i]
    }

    /// `released(i)`: not held now, held last frame.
    pub fn released(&self, player: usize) -> (released: bool)
        requires
            is_player(player),
        ensures
            released == self.is_released(player),
            released == (!self.is_held(player) && self.was_held(player)),
    {
        let i = Self::index(player);
        !self.states[i] && self.old_states[i]
    }

    /// The array slot of a 1-based player number; a player number outside
    /// `1..=4` is a bug in the caller.
    fn index(player: usize) -> (i: usize)
        requires
            is_player(player),
        ensures
            i == player - 1,
            i < PLAYERS,
    {
        player - 1
    }
}

/// Input becomes visible only when it is latched: the frame's view of a button
/// after a latch is what the driver wrote before it, and the frame before's
/// view becomes the history that `pressed` and `released` compare against.
pub proof fn lemma_latch_moves_input_into_view(before: TheOneButton, after: TheOneButton, player: usize)
    requires
        is_player(player),
        after.key_down(player) == before.key_down(player),
        after.is_held(player) == before.key_down(player),
        after.was_held(player) == before.is_held(player),
    ensures
        after.is_held(player) == before.key_down(player),
        (after.is_held(player) && !after.was_held(player)) <==> (before.key_down(player)
            && !before.is_held(player)),
{
}

/// A button is never pressed and released in the same frame; a pressed
/// button is held and a released one is not; and a button whose input is
/// unchanged across two latches is neither.
pub proof fn lemma_edges_exclusive(b: TheOneButton, player: usize)
    requires
        is_player(player),
    ensures
        !(b.is_pressed(player) && b.is_released(player)),
        b.is_pressed(player) ==> b.is_held(player),
        b.is_released(player) ==> !b.is_held(player),
        !((b.is_held(player) && !b.was_held(player)) && (!b.is_held(player) && b.was_held(
            player,
        ))),
        b.is_held(player) == b.was_held(player) ==> !(b.is_held(player) && !b.was_held(player))
            && !(!b.is_held(player) && b.was_held(player)),
{
}

} // verus!
