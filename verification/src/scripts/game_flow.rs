//! The scene state machine.
//!
//! ```text
//!   init ──► player_select ──(someone joined)──► none ──(countdown ends)──►
//!            spawn menu,      spawn countdown          start_game: fade out,
//!            fade in                                   then clear the menu,
//!                                                      place the factories,
//!                                                      fade in ──► in_game
//!
//!   in_game ──(fewer than 2 factories for 300 frames)──► fade out ──►
//!             print stats, build a whole new game
//! ```
//!
//! The machine's state may also be empty: no state while a transition is in
//! flight is a distinct state from all three of the named ones. This module
//! holds the machine's state and its decisions -- who has joined, who plays
//! the match, when a finished match fades out; spawning and placing the actors
//! those decisions call for is done around it.
use vstd::prelude::*;

use crate::the_one_button::is_player;
use crate::world::ActorId;

verus! {

/// Frames a match hangs on after it is down to one factory, before restarting.
pub const GAME_OVER_FRAMES: i64 = 300;

/// The machine's named states.
#[derive(Clone, Copy, Debug, PartialEq, Eq, Structural)]
pub enum State {
    Init,
    PlayerSelect,
    InGame,
}

impl State {
    /// The state's name, as the log prints it.
    pub fn name(self) -> (name: &'static str)
        ensures
            name@ == match self {
                State::Init => "init"@,
                State::PlayerSelect => "player_select"@,
                State::InGame => "in_game"@,
            },
    {
        match self {
            State::Init => "init",
            State::PlayerSelect => "player_select",
            State::InGame => "in_game",
        }
    }
}

#[derive(Clone, Debug, PartialEq)]
pub struct GameFlow {
    /// `None`: a transition is in flight and `update` has
    /// nothing to do until a callback moves it on.
    pub state: Option<State>,
    /// The four menu factories, in player order, so index + 1 is the player
    /// number. Kept after they die.
    pub selectors: Vec<ActorId>,
    pub splash: Option<ActorId>,
    pub game_over_timer: i64,
}

/// One frame of a running match, from `before` to `after`, with `factories`
/// factories still standing: with two or more nothing changes; with fewer the
/// timer counts the frame, and a fade-out is called for once it has passed
/// [`GAME_OVER_FRAMES`].
pub open spec fn game_over_ticks(before: GameFlow, factories: usize, fade_out: bool, after: GameFlow) -> bool {
    if factories >= 2 {
        after == before && !fade_out
    } else {
        &&& after == GameFlow { game_over_timer: (before.game_over_timer + 1) as i64, ..before }
        &&& after.game_over_timer == before.game_over_timer + 1
        &&& fade_out == (after.game_over_timer > GAME_OVER_FRAMES)
    }
}

impl GameFlow {
    /// A scene machine at the start: the menu is yet to be built.
    pub fn new() -> (flow: Self)
        ensures
            flow.state == Some(State::Init),
            flow.selectors@.len() == 0,
            flow.splash is None,
            flow.game_over_timer == 0,
    {
        GameFlow { state: Some(State::Init), selectors: Vec::new(), splash: None, game_over_timer: 0 }
    }

    /// `init`'s bookkeeping, once the menu is up: remember its actors and
    /// wait for players.
    pub fn menu_built(&mut self, selectors: Vec<ActorId>, splash: ActorId)
        ensures
            final(self).state == Some(State::PlayerSelect),
            final(self).selectors == selectors,
            final(self).splash == Some(splash),
            final(self).game_over_timer == old(self).game_over_timer,
    {
        self.selectors = selectors;
        self.splash = Some(splash);
        self.state = Some(State::PlayerSelect);
    }

    /// `in_game`, one frame of it. A match with fewer than two factories left
    /// is over, but not immediately: the loser's wreck spends 300 frames
    /// exploding first. Returns whether to spawn a fade-out this frame.
    ///
    /// There is no guard and no state change, so once the timer has run out
    /// a *fresh* fade-out is asked for every frame, sixty of them before the
    /// first one lands and switches the scene out from under the rest. That is
    /// the game's behaviour, kept.
    pub fn game_over_tick(&mut self, factories: usize) -> (fade_out: bool)
        requires
            old(self).game_over_timer < i64::MAX,
        ensures
            game_over_ticks(*old(self), factories, fade_out, *final(self)),
    {
        if factories >= 2 {
            return false;
        }
        self.game_over_timer = self.game_over_timer + 1;
        self.game_over_timer > GAME_OVER_FRAMES
    }

    /// The machine has handed control to a callback (the countdown, then the
    /// fade): `state` is `None` until one moves it on.
    pub fn await_callback(&mut self)
        ensures
            final(self).state is None,
            final(self).selectors == old(self).selectors,
            final(self).splash == old(self).splash,
            final(self).game_over_timer == old(self).game_over_timer,
    {
        self.state = None;
    }

    /// The match is in the water.
    pub fn match_begun(&mut self)
        ensures
            final(self).state == Some(State::InGame),
            final(self).selectors == old(self).selectors,
            final(self).splash == old(self).splash,
            final(self).game_over_timer == old(self).game_over_timer,
    {
        self.state = Some(State::InGame);
    }
}

/// The player numbers whose menu factories have been picked, ascending: index
/// `i` of `picked` is player `i + 1`.
pub open spec fn joined(picked: Seq<bool>) -> Seq<usize> {
    Seq::new(picked.len(), |i: int| (i + 1) as usize).filter(|p: usize| picked[p - 1])
}

/// `player_select`'s test: has anybody joined yet?
pub fn anyone_joined(picked: &[bool]) -> (any: bool)
    ensures
        any == exists|i: int| 0 <= i < picked@.len() && picked@[i],
{
    let mut i: usize = 0;
    while i < picked.len()
        invariant
            i <= picked@.len(),
            forall|j: int| 0 <= j < i ==> !picked@[j],
        decreases picked@.len() - i,
    {
        if picked[i] {
            return true;
        }
        i = i + 1;
    }
    false
}

/// `start_game`'s roster: the player numbers of the picked menu factories, in
/// player order. The *index* into the selector list is the player number by
/// construction.
pub fn joined_players(picked: &[bool]) -> (players: Vec<usize>)
    requires
        picked@.len() < usize::MAX,
    ensures
        players@ == joined(picked@),
{
    let ghost numbers = Seq::new(picked@.len(), |i: int| (i + 1) as usize);
    let ghost pred = |p: usize| picked@[p - 1];
    let mut players: Vec<usize> = Vec::new();
    let mut i: usize = 0;
    while i < picked.len()
        invariant
            picked@.len() < usize::MAX,
            i <= picked@.len(),
            numbers == Seq::new(picked@.len(), |i: int| (i + 1) as usize),
            pred == (|p: usize| picked@[p - 1]),
            players@ == numbers.take(i as int).filter(pred),
        decreases picked@.len() - i,
    {
        proof {
            assert(numbers.take(i + 1) =~= numbers.take(i as int).push((i + 1) as usize));
            reveal(Seq::filter);
            assert(numbers.take(i as int).push((i + 1) as usize).drop_last() =~= numbers.take(
                i as int,
            ));
        }
        if picked[i] {
            players.push(i + 1);
        }
        i = i + 1;
    }
    proof {
        assert(numbers.take(picked@.len() as int) =~= numbers);
    }
    players
}

/// `begin_match`'s roster: one human gets an opponent -- whichever of players
/// 1 and 2 they are not -- and that added player is the CPU. Anyone else
/// plays as they joined.
pub fn match_roster(players: &[usize]) -> (roster: (Vec<usize>, Option<usize>))
    ensures
        players@.len() == 1 ==> {
            let cpu: usize = if players@[0] == 1 { 2 } else { 1 };
            &&& roster.0@ == players@.push(cpu)
            &&& roster.1 == Some(cpu)
        },
        players@.len() != 1 ==> roster.0@ == players@ && roster.1 is None,
{
    let mut roster: Vec<usize> = Vec::new();
    let mut i: usize = 0;
    while i < players.len()
        invariant
            i <= players@.len(),
            roster@ == players@.take(i as int),
        decreases players@.len() - i,
    {
        roster.push(players[i]);
        proof {
            assert(players@.take(i + 1) =~= players@.take(i as int).push(players@[i as int]));
        }
        i = i + 1;
    }
    proof {
        assert(players@.take(players@.len() as int) =~= players@);
    }
    if players.len() == 1 {
        let cpu: usize = if players[0] == 1 { 2 } else { 1 };
        roster.push(cpu);
        (roster, Some(cpu))
    } else {
        (roster, None)
    }
}

/// A lone human always gets a CPU opponent who is somebody else, and who is
/// one of the first two players.
pub proof fn lemma_lone_player_faces_another(human: usize)
    requires
        is_player(human),
    ensures
        ({
            let cpu: usize = if human == 1 { 2 } else { 1 };
            &&& cpu != human
            &&& is_player(cpu)
            &&& cpu <= 2
        }),
{
}

/// The match roster lists each player of the menu exactly once, ascending,
/// and only players whose factory was picked.
pub proof fn lemma_joined_players_are_the_picked(picked: Seq<bool>, p: usize)
    requires
        picked.len() < usize::MAX,
    ensures
        joined(picked).contains(p) <==> (1 <= p <= picked.len() && picked[p - 1]),
        forall|i: int, j: int|
            0 <= i < j < joined(picked).len() ==> joined(picked)[i] < joined(picked)[j],
{
    let numbers = Seq::new(picked.len(), |i: int| (i + 1) as usize);
    let pred = |q: usize| picked[q - 1];
    if joined(picked).contains(p) {
        numbers.lemma_filter_contains_rev(pred, p);
        let i = choose|i: int| 0 <= i < joined(picked).len() && joined(picked)[i] == p;
        numbers.lemma_filter_pred(pred, i);
    }
    if 1 <= p <= picked.len() && picked[p - 1] {
        assert(numbers[p - 1] == p);
        numbers.lemma_filter_contains(pred, p - 1);
    }
    lemma_filter_ascending(numbers, pred);
}

proof fn lemma_filter_ascending(s: Seq<usize>, p: spec_fn(usize) -> bool)
    requires
        forall|i: int, j: int| 0 <= i < j < s.len() ==> s[i] < s[j],
    ensures
        forall|i: int, j: int| 0 <= i < j < s.filter(p).len() ==> s.filter(p)[i] < s.filter(p)[j],
    decreases s.len(),
{
    reveal(Seq::filter);
    if s.len() > 0 {
        let t = s.drop_last();
        lemma_filter_ascending(t, p);
        assert forall|i: int| 0 <= i < t.filter(p).len() implies t.filter(p)[i] < s.last() by {
            let y = t.filter(p)[i];
            assert(t.filter(p).contains(y));
            t.lemma_filter_contains_rev(p, y);
            let k = choose|k: int| 0 <= k < t.len() && t[k] == y;
            assert(s[k] == y);
        }
    }
}

/// A match with two factories standing never times out, however long it
/// runs; with fewer, the fade-out is called for exactly on the frames after the
/// first [`GAME_OVER_FRAMES`] of them.
pub proof fn lemma_game_over_waits_for_the_wreck(before: GameFlow, factories: usize, fade_out: bool, after: GameFlow)
    requires
        game_over_ticks(before, factories, fade_out, after),
    ensures
        factories >= 2 ==> after.game_over_timer == before.game_over_timer && !fade_out,
        fade_out <==> (factories < 2 && before.game_over_timer >= GAME_OVER_FRAMES),
        after.state == before.state,
{
}

} // verus!
