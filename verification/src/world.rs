//! The actor model.
//!
//! Three properties of the actor model are observable in play, and this
//! module keeps them:
//!
//! 1. **Iteration is in spawn order.** A phase visits actors in the order they
//!    were created, and within an actor its scripts in blueprint order.
//! 2. **An actor spawned mid-phase is visited by that same phase.** The phase
//!    walk re-reads the length of the live list at every step.
//! 3. **Death is deferred, everything else is immediate.** `dead` is checked
//!    before each individual script call, so an actor that dies partway through
//!    its own script list skips the rest of it, but it is only unlinked from
//!    the live list by [`World::cull`] at the end of the update.
//!
//! Actor storage is only ever appended to. Dead actors are unlinked from the
//! iteration order and the tag index but their data is kept, because scripts
//! hold on to actors: an AI that stored a target last frame reads
//! `target.dead` this frame. Never reusing a slot makes an [`ActorId`]
//! permanently valid.
//!
//! An actor here is its bookkeeping: blueprint name, script list, flags and
//! owner. The per-script data lives with the scripts that read it, indexed by
//! the same [`ActorId`]; since ids are handed out in storage order, a store
//! that grows by one entry per spawn stays aligned with this one.
use vstd::prelude::*;

use crate::scripts::ScriptKind;
use crate::text::str_eq;

verus! {

/// A handle to an actor. Stays valid forever, including after death.
#[derive(Clone, Copy, Debug, PartialEq, Eq, Structural, Hash, PartialOrd, Ord)]
pub struct ActorId(pub usize);

/// The update and draw phases, in the order the game runs them.
///
/// Every phase is run to completion over all actors before the next one starts.
#[derive(Clone, Copy, Debug, PartialEq, Eq, Structural)]
pub enum Phase {
    UpdateSetup,
    Update,
    CollisionRegistry,
    CollisionCheck,
    UpdateCleanup,
    DrawSetup,
    Draw,
    DrawForeground,
    FadeDraw,
}

impl Phase {
    /// The four phases that draw rather than update.
    pub open spec fn is_draw(self) -> bool {
        self is DrawSetup || self is Draw || self is DrawForeground || self is FadeDraw
    }
}

/// The phases of one update, in the order they run; the cull follows them.
pub fn update_phases() -> (phases: [Phase; 5])
    ensures
        phases@ == seq![
            Phase::UpdateSetup,
            Phase::Update,
            Phase::CollisionRegistry,
            Phase::CollisionCheck,
            Phase::UpdateCleanup,
        ],
        forall|i: int| 0 <= i < 5 ==> !(#[trigger] phases@[i]).is_draw(),
{
    let phases = [
        Phase::UpdateSetup,
        Phase::Update,
        Phase::CollisionRegistry,
        Phase::CollisionCheck,
        Phase::UpdateCleanup,
    ];
    assert(phases@ =~= seq![
        Phase::UpdateSetup,
        Phase::Update,
        Phase::CollisionRegistry,
        Phase::CollisionCheck,
        Phase::UpdateCleanup,
    ]);
    phases
}

/// The phases of one draw, in the order they run.
pub fn draw_phases() -> (phases: [Phase; 4])
    ensures
        phases@ == seq![Phase::DrawSetup, Phase::Draw, Phase::DrawForeground, Phase::FadeDraw],
        forall|i: int| 0 <= i < 4 ==> (#[trigger] phases@[i]).is_draw(),
{
    let phases = [Phase::DrawSetup, Phase::Draw, Phase::DrawForeground, Phase::FadeDraw];
    assert(phases@ =~= seq![Phase::DrawSetup, Phase::Draw, Phase::DrawForeground, Phase::FadeDraw]);
    phases
}

/// One actor: a blueprint name, an ordered list of scripts, and its flags.
#[derive(Debug)]
pub struct Actor {
    pub blueprint: &'static str,
    /// Blueprint order, which is the order scripts run within this actor.
    pub scripts: Vec<ScriptKind>,
    pub dead: bool,
    pub paused: bool,
    pub hidden: bool,
    /// Which player owns this actor, where that means anything.
    pub player: Option<usize>,
}

/// Whether a phase passes over an actor: draws skip the hidden, everything
/// else skips the dead and the paused.
pub open spec fn skips(phase: Phase, actor: Actor) -> bool {
    if phase.is_draw() {
        actor.hidden
    } else {
        actor.dead || actor.paused
    }
}

impl Actor {
    /// A live, visible, unowned actor of the given blueprint with no scripts.
    pub fn new(blueprint: &'static str) -> (actor: Self)
        ensures
            actor.blueprint == blueprint,
            actor.scripts@ == Seq::<ScriptKind>::empty(),
            !actor.dead,
            !actor.paused,
            !actor.hidden,
            actor.player is None,
    {
        Actor {
            blueprint,
            scripts: Vec::new(),
            dead: false,
            paused: false,
            hidden: false,
            player: None,
        }
    }

    /// Whether this actor runs `kind`. Cheap: the list is a handful of entries.
    pub fn has(&self, kind: ScriptKind) -> (has: bool)
        ensures
            has == self.scripts@.contains(kind),
    {
        let mut i: usize = 0;
        while i < self.scripts.len()
            invariant
                i <= self.scripts@.len(),
                forall|j: int| 0 <= j < i ==> self.scripts@[j] != kind,
            decreases self.scripts@.len() - i,
        {
            if self.scripts[i] == kind {
                return true;
            }
            i = i + 1;
        }
        false
    }
}

/// The live actors of one tag, in spawn order.
struct TagList {
    tag: &'static str,
    ids: Vec<ActorId>,
}

/// The world's fields, kept apart from [`World`] so that an operation can take
/// them out whole, rebuild them, and put them back.
struct WorldData {
    /// Append-only. Indexed by [`ActorId`]; entries are never removed or reused.
    actors: Vec<Actor>,
    /// Live actors in spawn order. This is what a phase walks.
    order: Vec<ActorId>,
    /// The tag index: one list per tag ever spawned.
    by_tag: Vec<TagList>,
    /// The blueprint each actor was spawned with, which is the tag it is
    /// indexed under for good.
    spawn_tags: Ghost<Seq<Seq<char>>>,
}

/// Whether an actor was spawned with tag `tag`, given every actor's tag.
pub open spec fn has_tag(tags: Seq<Seq<char>>, tag: Seq<char>) -> spec_fn(ActorId) -> bool {
    |id: ActorId| tags[id.0 as int] == tag
}

/// Whether an actor is not dead, given every actor.
pub open spec fn is_alive(actors: Seq<Actor>) -> spec_fn(ActorId) -> bool {
    |id: ActorId| !actors[id.0 as int].dead
}

/// The ids in `ids` whose actor was spawned with tag `tag`, in order.
pub open spec fn with_tag(ids: Seq<ActorId>, tags: Seq<Seq<char>>, tag: Seq<char>) -> Seq<ActorId> {
    ids.filter(has_tag(tags, tag))
}

/// The ids in `ids` whose actor is not dead, in order.
pub open spec fn alive(ids: Seq<ActorId>, actors: Seq<Actor>) -> Seq<ActorId> {
    ids.filter(is_alive(actors))
}

/// Strictly increasing ids: spawn order without repeats.
pub open spec fn in_spawn_order(ids: Seq<ActorId>) -> bool {
    forall|i: int, j: int| 0 <= i < j < ids.len() ==> ids[i].0 < ids[j].0
}

spec fn keys(by_tag: Seq<TagList>) -> Seq<Seq<char>> {
    by_tag.map_values(|e: TagList| e.tag@)
}

spec fn data_wf(d: WorldData) -> bool {
    &&& d.spawn_tags@.len() == d.actors@.len()
    &&& in_spawn_order(d.order@)
    &&& forall|i: int| 0 <= i < d.order@.len() ==> d.order@[i].0 < d.actors@.len()
    &&& forall|i: int, j: int|
        0 <= i < j < d.by_tag@.len() ==> d.by_tag@[i].tag@ != d.by_tag@[j].tag@
    &&& forall|i: int|
        0 <= i < d.by_tag@.len() ==> d.by_tag@[i].ids@ == with_tag(
            d.order@,
            d.spawn_tags@,
            d.by_tag@[i].tag@,
        )
    &&& forall|i: int|
        0 <= i < d.order@.len() ==> keys(d.by_tag@).contains(
            #[trigger] d.spawn_tags@[d.order@[i].0 as int],
        )
}

/// All the actors, the order they run in, and the tag index.
pub struct World {
    data: WorldData,
}

impl World {
    #[verifier::type_invariant]
    spec fn inv(self) -> bool {
        data_wf(self.data)
    }

    /// Every actor ever spawned, indexed by id, dead ones included.
    pub closed spec fn actors(self) -> Seq<Actor> {
        self.data.actors@
    }

    /// The live list: actors not yet culled, in spawn order.
    pub closed spec fn live(self) -> Seq<ActorId> {
        self.data.order@
    }

    /// The blueprint actor `id` was spawned with: the tag it is found under.
    pub closed spec fn spawn_tag(self, id: ActorId) -> Seq<char> {
        self.data.spawn_tags@[id.0 as int]
    }

    /// The ids of the live list spawned with tag `tag`, in spawn order.
    pub closed spec fn tagged_ids(self, tag: Seq<char>) -> Seq<ActorId> {
        with_tag(self.data.order@, self.data.spawn_tags@, tag)
    }

    /// Whether `id` names an actor of this world.
    pub open spec fn valid(self, id: ActorId) -> bool {
        id.0 < self.actors().len()
    }

    /// Every actor is still found under the blueprint it now has: nobody has
    /// rewritten an actor's blueprint since it was spawned.
    pub open spec fn tags_follow_blueprints(self) -> bool {
        forall|id: ActorId|
            self.valid(id) ==> #[trigger] self.spawn_tag(id) == self.actors()[id.0 as int].blueprint@
    }

    /// The live list names actors of this world, and every actor off it is
    /// dead: nobody has brought a dead actor back.
    pub open spec fn unlisted_are_dead(self) -> bool {
        &&& forall|k: int| 0 <= k < self.live().len() ==> self.valid(#[trigger] self.live()[k])
        &&& forall|id: ActorId|
            self.valid(id) && !self.live().contains(id) ==> (#[trigger] self.actors()[id.0 as int]).dead
    }

    pub fn new() -> (world: Self)
        ensures
            world.actors() == Seq::<Actor>::empty(),
            world.live() == Seq::<ActorId>::empty(),
            forall|tag: Seq<char>| #[trigger] world.tagged_ids(tag) == Seq::<ActorId>::empty(),
            world.tags_follow_blueprints(),
            world.unlisted_are_dead(),
    {
        World { data: WorldData::empty() }
    }

    /// Adds an actor and returns its id.
    ///
    /// The new actor goes on the end of the live list, which is what makes an
    /// actor spawned mid-phase visible to the rest of that phase.
    pub fn spawn(&mut self, actor: Actor) -> (id: ActorId)
        ensures
            id.0 == old(self).actors().len(),
            final(self).actors() == old(self).actors().push(actor),
            final(self).live() == old(self).live().push(id),
            final(self).spawn_tag(id) == actor.blueprint@,
            forall|other: ActorId|
                old(self).valid(other) ==> final(self).spawn_tag(other) == old(self).spawn_tag(
                    other,
                ),
            forall|tag: Seq<char>|
                #![trigger final(self).tagged_ids(tag)]
                final(self).tagged_ids(tag) == if tag == actor.blueprint@ {
                    old(self).tagged_ids(tag).push(id)
                } else {
                    old(self).tagged_ids(tag)
                },
            old(self).tags_follow_blueprints() ==> final(self).tags_follow_blueprints(),
            old(self).unlisted_are_dead() ==> final(self).unlisted_are_dead(),
    {
        proof {
            use_type_invariant(&*self);
        }
        let mut d = WorldData::empty();
        std::mem::swap(&mut d, &mut self.data);
        let ghost before = d;
        let id = d.spawn(actor);
        proof {
            let new_tags = d.spawn_tags@;
            assert forall|tag: Seq<char>|
                #[trigger] with_tag(d.order@, new_tags, tag) == if tag == actor.blueprint@ {
                    with_tag(before.order@, before.spawn_tags@, tag).push(id)
                } else {
                    with_tag(before.order@, before.spawn_tags@, tag)
                } by {
                lemma_filter_push(before.order@, has_tag(new_tags, tag), id);
                lemma_filter_congruent(
                    before.order@,
                    has_tag(new_tags, tag),
                    has_tag(before.spawn_tags@, tag),
                );
            }
        }
        self.data = d;
        proof {
            if old(self).tags_follow_blueprints() {
                assert forall|x: ActorId| self.valid(x) implies #[trigger] self.spawn_tag(x)
                    == self.actors()[x.0 as int].blueprint@ by {
                    if x.0 < old(self).actors().len() {
                        assert(old(self).valid(x));
                        assert(old(self).spawn_tag(x) == old(self).actors()[x.0 as int].blueprint@);
                    }
                }
            }
            if old(self).unlisted_are_dead() {
                assert forall|k: int| 0 <= k < self.live().len() implies self.valid(
                    #[trigger] self.live()[k],
                ) by {
                    if k < old(self).live().len() {
                        assert(old(self).valid(old(self).live()[k]));
                    }
                }
                assert forall|x: ActorId| self.valid(x) && !self.live().contains(x) implies (
                #[trigger] self.actors()[x.0 as int]).dead by {
                    let last = self.live().len() - 1;
                    assert(self.live()[last] == id);
                    if x.0 == id.0 {
                        assert(x == id);
                        assert(self.live().contains(id));
                    }
                    assert(old(self).valid(x));
                    if old(self).live().contains(x) {
                        let k = choose|k: int| 0 <= k < old(self).live().len() && old(self).live()[k] == x;
                        assert(self.live()[k] == x);
                    }
                    assert(old(self).actors()[x.0 as int].dead);
                }
            }
        }
        id
    }

    /// The actor `id` names. Ids stay valid after death.
    pub fn get(&self, id: ActorId) -> (actor: &Actor)
        requires
            self.valid(id),
        ensures
            *actor == self.actors()[id.0 as int],
    {
        &self.data.actors[id.0]
    }

    /// The actor `id` names, to change. The live list and the tag index are
    /// untouched by whatever the caller writes.
    pub fn get_mut(&mut self, id: ActorId) -> (actor: &mut Actor)
        requires
            old(self).valid(id),
        ensures
            *actor == old(self).actors()[id.0 as int],
            final(self).actors() == old(self).actors().update(id.0 as int, *final(actor)),
            final(self).live() == old(self).live(),
            forall|other: ActorId| #[trigger]
                final(self).spawn_tag(other) == old(self).spawn_tag(other),
            forall|tag: Seq<char>| #[trigger]
                final(self).tagged_ids(tag) == old(self).tagged_ids(tag),
            old(self).unlisted_are_dead() && (old(self).actors()[id.0 as int].dead ==> (*final(actor)).dead)
                ==> final(self).unlisted_are_dead(),
    {
        proof {
            use_type_invariant(&*self);
        }
        &mut self.data.actors[id.0]
    }

    /// The live actors with this tag, in spawn order.
    pub fn tagged(&self, tag: &str) -> (ids: &[ActorId])
        ensures
            ids@ == self.tagged_ids(tag@),
            forall|i: int| 0 <= i < ids@.len() ==> self.valid(#[trigger] ids@[i]),
    {
        proof {
            use_type_invariant(self);
            lemma_tagged_valid(self.data, tag@);
        }
        let d = &self.data;
        let mut k: usize = 0;
        while k < d.by_tag.len()
            invariant
                *d == self.data,
                data_wf(*d),
                k <= d.by_tag@.len(),
                forall|j: int| 0 <= j < k ==> d.by_tag@[j].tag@ != tag@,
            decreases d.by_tag@.len() - k,
        {
            if str_eq(d.by_tag[k].tag, tag) {
                assert(d.by_tag@[k as int].ids@ == with_tag(d.order@, d.spawn_tags@, d.by_tag@[k as int].tag@));
                proof {
                    lemma_tagged_valid(self.data, tag@);
                }
                return d.by_tag[k].ids.as_slice();
            }
            k = k + 1;
        }
        proof {
            lemma_untagged_is_empty(*d, tag@);
        }
        &[]
    }

    /// Live actors in spawn order.
    pub fn order(&self) -> (ids: &[ActorId])
        ensures
            ids@ == self.live(),
            in_spawn_order(ids@),
            forall|i: int| 0 <= i < ids@.len() ==> self.valid(#[trigger] ids@[i]),
    {
        proof {
            use_type_invariant(self);
        }
        self.data.order.as_slice()
    }

    /// How many actors are on the live list.
    pub fn live_count(&self) -> (n: usize)
        ensures
            n == self.live().len(),
    {
        self.data.order.len()
    }

    /// Total ever spawned, dead included. Diagnostic only.
    pub fn total_spawned(&self) -> (n: usize)
        ensures
            n == self.actors().len(),
    {
        self.data.actors.len()
    }

    /// Marks `id` dead. It keeps its place on the live list until the cull.
    pub fn kill(&mut self, id: ActorId)
        requires
            old(self).valid(id),
        ensures
            final(self).actors() == old(self).actors().update(
                id.0 as int,
                Actor { dead: true, ..old(self).actors()[id.0 as int] },
            ),
            final(self).live() == old(self).live(),
            forall|other: ActorId| #[trigger]
                final(self).spawn_tag(other) == old(self).spawn_tag(other),
            forall|tag: Seq<char>| #[trigger]
                final(self).tagged_ids(tag) == old(self).tagged_ids(tag),
            old(self).tags_follow_blueprints() ==> final(self).tags_follow_blueprints(),
            old(self).unlisted_are_dead() ==> final(self).unlisted_are_dead(),
    {
        self.get_mut(id).dead = true;
    }

    pub fn is_dead(&self, id: ActorId) -> (dead: bool)
        requires
            self.valid(id),
        ensures
            dead == self.actors()[id.0 as int].dead,
    {
        self.data.actors[id.0].dead
    }

    /// Unlinks dead actors from the live list and the tag index, preserving
    /// the order of the survivors. Their data stays where it is.
    ///
    /// Runs once at the end of the update, never mid-phase.
    pub fn cull(&mut self)
        ensures
            final(self).actors() == old(self).actors(),
            final(self).live() == alive(old(self).live(), old(self).actors()),
            forall|other: ActorId| #[trigger]
                final(self).spawn_tag(other) == old(self).spawn_tag(other),
            forall|tag: Seq<char>| #[trigger]
                final(self).tagged_ids(tag) == alive(old(self).tagged_ids(tag), old(self).actors()),
            forall|k: int|
                0 <= k < final(self).live().len() ==> !final(self).actors()[(#[trigger] final(self).live()[k]).0 as int].dead,
            old(self).tags_follow_blueprints() ==> final(self).tags_follow_blueprints(),
            old(self).unlisted_are_dead() ==> final(self).unlisted_are_dead(),
    {
        proof {
            use_type_invariant(&*self);
        }
        let mut d = WorldData::empty();
        std::mem::swap(&mut d, &mut self.data);
        let ghost before = d;
        d.cull();
        proof {
            assert forall|tag: Seq<char>|
                with_tag(d.order@, d.spawn_tags@, tag) == alive(
                    with_tag(before.order@, before.spawn_tags@, tag),
                    before.actors@,
                ) by {
                lemma_filter_commute(
                    before.order@,
                    is_alive(before.actors@),
                    has_tag(before.spawn_tags@, tag),
                );
            }
        }
        self.data = d;
        proof {
            lemma_filter_exactly(old(self).live(), is_alive(old(self).actors()));
            assert forall|k: int| 0 <= k < self.live().len() implies !self.actors()[(
            #[trigger] self.live()[k]).0 as int].dead by {
                assert(self.live().contains(self.live()[k]));
            }
            if old(self).tags_follow_blueprints() {
                assert forall|x: ActorId| self.valid(x) implies #[trigger] self.spawn_tag(x)
                    == self.actors()[x.0 as int].blueprint@ by {
                    assert(old(self).valid(x));
                    assert(old(self).spawn_tag(x) == old(self).actors()[x.0 as int].blueprint@);
                }
            }
            if old(self).unlisted_are_dead() {
                assert forall|k: int| 0 <= k < self.live().len() implies self.valid(
                    #[trigger] self.live()[k],
                ) by {
                    assert(self.live().contains(self.live()[k]));
                    let j = choose|j: int| 0 <= j < old(self).live().len() && old(self).live()[j] == self.live()[k];
                    assert(old(self).valid(old(self).live()[j]));
                }
                assert forall|x: ActorId| self.valid(x) && !self.live().contains(x) implies (
                #[trigger] self.actors()[x.0 as int]).dead by {
                    assert(old(self).valid(x));
                }
            }
        }
    }
}

impl WorldData {
    fn empty() -> (d: Self)
        ensures
            data_wf(d),
            d.actors@.len() == 0,
            d.order@.len() == 0,
    {
        WorldData {
            actors: Vec::new(),
            order: Vec::new(),
            by_tag: Vec::new(),
            spawn_tags: Ghost(Seq::empty()),
        }
    }

    fn spawn(&mut self, actor: Actor) -> (id: ActorId)
        requires
            data_wf(*old(self)),
        ensures
            data_wf(*final(self)),
            id.0 == old(self).actors@.len(),
            final(self).actors@ == old(self).actors@.push(actor),
            final(self).order@ == old(self).order@.push(id),
            final(self).spawn_tags@ == old(self).spawn_tags@.push(actor.blueprint@),
    {
        let ghost old_d = *self;
        let id = ActorId(self.actors.len());
        let tag = actor.blueprint;
        self.actors.push(actor);
        self.order.push(id);
        self.spawn_tags = Ghost(self.spawn_tags@.push(tag@));
        let ghost new_tags = self.spawn_tags@;

        proof {
            // the existing lists do not change meaning: old ids keep their tags
            assert forall|t: Seq<char>|
                with_tag(old_d.order@, new_tags, t) == with_tag(old_d.order@, old_d.spawn_tags@, t) by {
                lemma_filter_congruent(
                    old_d.order@,
                    has_tag(new_tags, t),
                    has_tag(old_d.spawn_tags@, t),
                );
            }
            assert forall|t: Seq<char>|
                #[trigger] with_tag(self.order@, new_tags, t) == if new_tags[id.0 as int] == t {
                    with_tag(old_d.order@, new_tags, t).push(id)
                } else {
                    with_tag(old_d.order@, new_tags, t)
                } by {
                lemma_filter_push(old_d.order@, has_tag(new_tags, t), id);
            }
        }

        let mut k: usize = 0;
        let mut found = false;
        while !found && k < self.by_tag.len()
            invariant
                k <= self.by_tag@.len(),
                self.by_tag@ == old_d.by_tag@,
                found ==> k < self.by_tag@.len() && self.by_tag@[k as int].tag@ == tag@,
                forall|j: int| 0 <= j < k ==> self.by_tag@[j].tag@ != tag@,
            decreases self.by_tag@.len() - k + (if found { 0int } else { 1int }),
        {
            if str_eq(self.by_tag[k].tag, tag) {
                found = true;
            } else {
                k = k + 1;
            }
        }

        if found {
            let mut entry = TagList { tag: self.by_tag[k].tag, ids: Vec::new() };
            std::mem::swap(&mut entry, &mut self.by_tag[k]);
            entry.ids.push(id);
            self.by_tag.set(k, entry);
        } else {
            let mut ids = Vec::new();
            ids.push(id);
            proof {
                lemma_untagged_is_empty(old_d, tag@);
            }
            self.by_tag.push(TagList { tag, ids });
        }

        proof {
            assert(keys(self.by_tag@).contains(tag@)) by {
                assert(keys(self.by_tag@)[k as int] == tag@);
            }
            assert forall|i: int| 0 <= i < self.order@.len() implies keys(self.by_tag@).contains(
                #[trigger] self.spawn_tags@[self.order@[i].0 as int],
            ) by {
                if i < old_d.order@.len() {
                    let t = old_d.spawn_tags@[old_d.order@[i].0 as int];
                    assert(keys(old_d.by_tag@).contains(t));
                    let j = choose|j: int|
                        0 <= j < keys(old_d.by_tag@).len() && keys(old_d.by_tag@)[j] == t;
                    assert(keys(self.by_tag@)[j] == t);
                }
            }
        }
        id
    }

    fn cull(&mut self)
        requires
            data_wf(*old(self)),
        ensures
            data_wf(*final(self)),
            final(self).actors@ == old(self).actors@,
            final(self).spawn_tags@ == old(self).spawn_tags@,
            final(self).order@ == alive(old(self).order@, old(self).actors@),
    {
        let ghost old_d = *self;
        let ghost keep = is_alive(old_d.actors@);
        let order = keep_alive(&self.actors, &self.order);

        let mut by_tag: Vec<TagList> = Vec::new();
        let mut k: usize = 0;
        while k < self.by_tag.len()
            invariant
                data_wf(old_d),
                keep == is_alive(old_d.actors@),
                self.actors@ == old_d.actors@,
                self.by_tag@ == old_d.by_tag@,
                k <= self.by_tag@.len(),
                by_tag@.len() == k,
                forall|j: int|
                    0 <= j < k ==> (#[trigger] by_tag@[j]).tag@ == self.by_tag@[j].tag@
                        && by_tag@[j].ids@ == alive(self.by_tag@[j].ids@, self.actors@),
            decreases self.by_tag@.len() - k,
        {
            proof {
                lemma_tag_list_bounded(old_d, k as int);
            }
            let ids = keep_alive(&self.actors, &self.by_tag[k].ids);
            by_tag.push(TagList { tag: self.by_tag[k].tag, ids });
            k = k + 1;
        }

        self.order = order;
        self.by_tag = by_tag;

        proof {
            let new_order = self.order@;
            lemma_filter_sorted(old_d.order@, keep);
            assert forall|i: int| 0 <= i < self.by_tag@.len() implies self.by_tag@[i].ids@
                == with_tag(new_order, self.spawn_tags@, self.by_tag@[i].tag@) by {
                let t = self.by_tag@[i].tag@;
                lemma_filter_commute(old_d.order@, keep, has_tag(old_d.spawn_tags@, t));
            }
            assert forall|i: int| 0 <= i < new_order.len() implies keys(self.by_tag@).contains(
                #[trigger] self.spawn_tags@[new_order[i].0 as int],
            ) by {
                let x = new_order[i];
                assert(new_order.contains(x));
                old_d.order@.lemma_filter_contains_rev(keep, x);
                let i0 = choose|i0: int| 0 <= i0 < old_d.order@.len() && old_d.order@[i0] == x;
                let t = old_d.spawn_tags@[old_d.order@[i0].0 as int];
                assert(keys(old_d.by_tag@).contains(t));
                let j = choose|j: int|
                    0 <= j < keys(old_d.by_tag@).len() && keys(old_d.by_tag@)[j] == t;
                assert(keys(self.by_tag@)[j] == t);
            }
            assert(self.by_tag@.len() == old_d.by_tag@.len());
            assert forall|i: int, j: int|
                0 <= i < j < self.by_tag@.len() implies self.by_tag@[i].tag@ != self.by_tag@[j].tag@ by {
                assert(self.by_tag@[i].tag@ == old_d.by_tag@[i].tag@);
                assert(self.by_tag@[j].tag@ == old_d.by_tag@[j].tag@);
            }
            assert(in_spawn_order(self.order@));
            assert forall|i: int| 0 <= i < self.order@.len() implies self.order@[i].0 < self.actors@.len() by {
                let x = self.order@[i];
                assert(self.order@.contains(x));
                old_d.order@.lemma_filter_contains_rev(keep, x);
            }
        }
    }
}

/// The ids of `ids` whose actors are not dead, in order.
fn keep_alive(actors: &Vec<Actor>, ids: &Vec<ActorId>) -> (kept: Vec<ActorId>)
    requires
        forall|i: int| 0 <= i < ids@.len() ==> (#[trigger] ids@[i]).0 < actors@.len(),
    ensures
        kept@ == alive(ids@, actors@),
{
    let ghost keep = is_alive(actors@);
    let mut kept: Vec<ActorId> = Vec::new();
    let mut i: usize = 0;
    while i < ids.len()
        invariant
            i <= ids@.len(),
            forall|j: int| 0 <= j < ids@.len() ==> (#[trigger] ids@[j]).0 < actors@.len(),
            keep == is_alive(actors@),
            kept@ == ids@.take(i as int).filter(keep),
        decreases ids@.len() - i,
    {
        let id = ids[i];
        proof {
            assert(ids@.take(i + 1) =~= ids@.take(i as int).push(id));
            lemma_filter_push(ids@.take(i as int), keep, id);
        }
        if !actors[id.0].dead {
            kept.push(id);
        }
        i = i + 1;
    }
    proof {
        assert(ids@.take(ids@.len() as int) =~= ids@);
    }
    kept
}

/// The actors of a tag are actors of the world.
proof fn lemma_tagged_valid(d: WorldData, tag: Seq<char>)
    requires
        data_wf(d),
    ensures
        forall|i: int| 0 <= i < with_tag(d.order@, d.spawn_tags@, tag).len() ==> (#[trigger] with_tag(d.order@, d.spawn_tags@, tag)[i]).0 < d.actors@.len(),
{
    let f = with_tag(d.order@, d.spawn_tags@, tag);
    assert forall|i: int| 0 <= i < f.len() implies (#[trigger] f[i]).0 < d.actors@.len() by {
        assert(f.contains(f[i]));
        d.order@.lemma_filter_contains_rev(has_tag(d.spawn_tags@, tag), f[i]);
    }
}

/// A tag list names only actors that exist.
proof fn lemma_tag_list_bounded(d: WorldData, k: int)
    requires
        data_wf(d),
        0 <= k < d.by_tag@.len(),
    ensures
        forall|i: int| 0 <= i < d.by_tag@[k].ids@.len() ==> (#[trigger] d.by_tag@[k].ids@[i]).0 < d.actors@.len(),
{
    let ids = d.by_tag@[k].ids@;
    let p = has_tag(d.spawn_tags@, d.by_tag@[k].tag@);
    assert forall|i: int| 0 <= i < ids.len() implies (#[trigger] ids[i]).0 < d.actors@.len() by {
        let x = ids[i];
        assert(ids.contains(x));
        d.order@.lemma_filter_contains_rev(p, x);
    }
}

/// With no tag list for `tag`, no live actor carries it.
proof fn lemma_untagged_is_empty(d: WorldData, tag: Seq<char>)
    requires
        data_wf(d),
        forall|j: int| 0 <= j < d.by_tag@.len() ==> d.by_tag@[j].tag@ != tag,
    ensures
        with_tag(d.order@, d.spawn_tags@, tag) == Seq::<ActorId>::empty(),
{
    let f = with_tag(d.order@, d.spawn_tags@, tag);
    let p = has_tag(d.spawn_tags@, tag);
    if f.len() > 0 {
        let x = f[0];
        assert(f.contains(x));
        d.order@.lemma_filter_contains_rev(p, x);
        d.order@.lemma_filter_pred(p, 0);
        let i = choose|i: int| 0 <= i < d.order@.len() && d.order@[i] == x;
        assert(keys(d.by_tag@).contains(d.spawn_tags@[d.order@[i].0 as int]));
        let j = choose|j: int|
            0 <= j < keys(d.by_tag@).len() && keys(d.by_tag@)[j] == d.spawn_tags@[d.order@[
                i
            ].0 as int];
        assert(d.by_tag@[j].tag@ == tag);
    }
    assert(f =~= Seq::<ActorId>::empty());
}

proof fn lemma_filter_push<A>(s: Seq<A>, p: spec_fn(A) -> bool, x: A)
    ensures
        s.push(x).filter(p) == if p(x) {
            s.filter(p).push(x)
        } else {
            s.filter(p)
        },
{
    reveal(Seq::filter);
    assert(s.push(x).drop_last() =~= s);
}

proof fn lemma_filter_congruent<A>(s: Seq<A>, p: spec_fn(A) -> bool, q: spec_fn(A) -> bool)
    requires
        forall|i: int| 0 <= i < s.len() ==> p(#[trigger] s[i]) == q(s[i]),
    ensures
        s.filter(p) == s.filter(q),
    decreases s.len(),
{
    reveal(Seq::filter);
    if s.len() > 0 {
        let t = s.drop_last();
        assert forall|i: int| 0 <= i < t.len() implies p(#[trigger] t[i]) == q(t[i]) by {
            assert(t[i] == s[i]);
        }
        lemma_filter_congruent(t, p, q);
        assert(p(s[s.len() - 1]) == q(s[s.len() - 1]));
    }
}

proof fn lemma_filter_commute<A>(s: Seq<A>, p: spec_fn(A) -> bool, q: spec_fn(A) -> bool)
    ensures
        s.filter(p).filter(q) == s.filter(q).filter(p),
    decreases s.len(),
{
    if s.len() > 0 {
        let t = s.drop_last();
        let x = s.last();
        lemma_filter_commute(t, p, q);
        assert(t.push(x) =~= s);
        lemma_filter_push(t, p, x);
        lemma_filter_push(t, q, x);
        lemma_filter_push(t.filter(p), q, x);
        lemma_filter_push(t.filter(q), p, x);
    } else {
        reveal(Seq::filter);
    }
}

proof fn lemma_filter_sorted(s: Seq<ActorId>, p: spec_fn(ActorId) -> bool)
    requires
        in_spawn_order(s),
    ensures
        in_spawn_order(s.filter(p)),
    decreases s.len(),
{
    if s.len() > 0 {
        let t = s.drop_last();
        let x = s.last();
        assert(in_spawn_order(t));
        lemma_filter_sorted(t, p);
        assert(t.push(x) =~= s);
        lemma_filter_push(t, p, x);
        assert forall|i: int| 0 <= i < t.filter(p).len() implies (#[trigger] t.filter(p)[i]).0
            < x.0 by {
            let y = t.filter(p)[i];
            assert(t.filter(p).contains(y));
            t.lemma_filter_contains_rev(p, y);
            let k = choose|k: int| 0 <= k < t.len() && t[k] == y;
            assert(s[k] == y);
        }
    } else {
        reveal(Seq::filter);
    }
}

/// Where a phase has got to in its walk over the live list.
///
/// The phase loop itself runs the scripts, which do work this library does not
/// see; this is the part that decides what runs next, one call at a time:
///
/// ```text
/// let mut run = PhaseRun::new(phase);
/// while let Some((id, kind)) = run.next(&world) { /* run kind on id */ }
/// ```
///
/// Between calls the world may change in any way the script pleases: actors
/// spawned onto the end of the live list are reached by this same walk, and an
/// actor that dies or is hidden stops running scripts at the next call.
pub struct PhaseRun {
    phase: Phase,
    /// The next position on the live list to start an actor from.
    position: usize,
    /// The actor whose scripts are being run, if one is.
    actor: Option<ActorId>,
    /// The next script index in that actor's list.
    index: usize,
    /// How many scripts that actor had when the walk reached it.
    count: usize,
}

impl PhaseRun {
    pub closed spec fn phase(self) -> Phase {
        self.phase
    }

    /// How far along the live list the walk has started actors.
    pub closed spec fn position(self) -> nat {
        self.position as nat
    }

    /// The actor being worked through, if any.
    pub closed spec fn current(self) -> Option<ActorId> {
        self.actor
    }

    /// How many of the current actor's scripts have been handed out.
    pub closed spec fn index(self) -> nat {
        self.index as nat
    }

    /// How many scripts the current actor had when the walk reached it.
    pub closed spec fn count(self) -> nat {
        self.count as nat
    }

    /// Whether the current actor still has a script to hand out in `world`:
    /// it has not run through the scripts it had when the walk reached it, it
    /// still has that many, and the phase does not skip it.
    pub open spec fn can_continue(self, world: World) -> bool {
        match self.current() {
            Some(id) => {
                &&& world.valid(id)
                &&& self.index() < self.count()
                &&& self.index() < world.actors()[id.0 as int].scripts@.len()
                &&& !skips(self.phase(), world.actors()[id.0 as int])
            },
            None => false,
        }
    }

    /// A walk over the whole live list, from the start.
    pub fn new(phase: Phase) -> (run: Self)
        ensures
            run.phase() == phase,
            run.position() == 0,
            run.current() is None,
    {
        PhaseRun { phase, position: 0, actor: None, index: 0, count: 0 }
    }

    /// One call of [`PhaseRun::next`] on `world`, taking the walk from
    /// `before` to `after` and handing out `step`.
    ///
    /// While the current actor can go on, its next script is handed out. Once
    /// it cannot, the walk moves along the live list from where it had got to,
    /// passing over actors that yield nothing, and starts the first one that
    /// yields something on its first script; if there is none it is finished.
    pub open spec fn steps(
        before: PhaseRun,
        world: World,
        step: Option<(ActorId, ScriptKind)>,
        after: PhaseRun,
    ) -> bool {
        &&& after.phase() == before.phase()
        &&& before.can_continue(world) ==> {
            let id = before.current()->0;
            &&& step == Some((id, world.actors()[id.0 as int].scripts@[before.index() as int]))
            &&& after.position() == before.position()
            &&& after.current() == before.current()
            &&& after.index() == before.index() + 1
            &&& after.count() == before.count()
        }
        &&& !before.can_continue(world) ==> {
            let phase = before.phase();
            let live = world.live();
            &&& before.position() <= after.position()
            &&& forall|q: int|
                before.position() <= q < after.position() - (if step is Some {
                    1int
                } else {
                    0int
                }) ==> yields_nothing(phase, world.actors()[live[q].0 as int])
            &&& match step {
                None => {
                    &&& after.current() is None
                    &&& after.position() == if before.position() < live.len() {
                        live.len()
                    } else {
                        before.position()
                    }
                },
                Some((id, kind)) => {
                    &&& before.position() < after.position() <= live.len()
                    &&& id == live[after.position() - 1]
                    &&& world.valid(id)
                    &&& after.current() == Some(id)
                    &&& !yields_nothing(phase, world.actors()[id.0 as int])
                    &&& kind == world.actors()[id.0 as int].scripts@[0]
                    &&& after.index() == 1
                    &&& after.count() == world.actors()[id.0 as int].scripts@.len()
                },
            }
        }
    }

    /// The next script to run in this phase, and the actor to run it on; or
    /// `None` once the walk has passed the end of the live list.
    ///
    /// The length of the live list is read afresh on every call, so an actor
    /// spawned by an earlier script of this phase is reached by it too. Whether
    /// the phase skips an actor is checked before each of its scripts.
    pub fn next(&mut self, world: &World) -> (step: Option<(ActorId, ScriptKind)>)
        ensures
            PhaseRun::steps(*old(self), *world, step, *final(self)),
    {
        proof {
            use_type_invariant(world);
        }
        if let Some(id) = self.actor {
            if id.0 < world.total_spawned() && self.index < self.count {
                let actor = world.get(id);
                if self.index < actor.scripts.len() && !Self::skipped(self.phase, actor) {
                    let kind = actor.scripts[self.index];
                    self.index = self.index + 1;
                    return Some((id, kind));
                }
            }
        }
        self.actor = None;
        if self.position >= world.live_count() {
            return None;
        }
        let ghost start = self.position;
        while self.position < world.live_count()
            invariant
                !old(self).can_continue(*world),
                start == old(self).position,
                self.phase == old(self).phase,
                start <= self.position <= world.live().len(),
                self.actor is None,
                forall|i: int| 0 <= i < world.live().len() ==> world.valid(#[trigger] world.live()[i]),
                forall|q: int|
                    start <= q < self.position ==> yields_nothing(
                        self.phase,
                        world.actors()[world.live()[q].0 as int],
                    ),
            decreases world.live().len() - self.position,
        {
            let id = world.order()[self.position];
            self.position = self.position + 1;
            let actor = world.get(id);
            if actor.scripts.len() > 0 && !Self::skipped(self.phase, actor) {
                self.actor = Some(id);
                self.count = actor.scripts.len();
                self.index = 1;
                return Some((id, actor.scripts[0]));
            }
        }
        None
    }

    fn skipped(phase: Phase, actor: &Actor) -> (skip: bool)
        ensures
            skip == skips(phase, *actor),
    {
        match phase {
            Phase::DrawSetup | Phase::Draw | Phase::DrawForeground | Phase::FadeDraw => actor.hidden,
            _ => actor.dead || actor.paused,
        }
    }
}

/// A fresh walk has no actor under way, so its first step starts the first
/// actor on the live list that has something to run.
pub proof fn lemma_a_fresh_walk_starts_from_the_front(run: PhaseRun, world: World)
    requires
        run.current() is None,
    ensures
        !run.can_continue(world),
{
}

/// An actor's turn ends after its last script, or the moment the phase
/// skips it -- when it dies or is paused in an update, or is hidden in a
/// draw -- whichever comes first.
pub proof fn lemma_a_turn_ends_after_the_last_script_or_once_skipped(
    run: PhaseRun,
    world: World,
    id: ActorId,
)
    requires
        run.current() == Some(id),
        world.valid(id),
        run.index() >= run.count() || run.index() >= world.actors()[id.0 as int].scripts@.len()
            || skips(run.phase(), world.actors()[id.0 as int]),
    ensures
        !run.can_continue(world),
{
}

/// Changing an actor in place, as [`World::get_mut`] lets a caller do,
/// keeps every actor under its own blueprint so long as the change leaves
/// the blueprint alone.
pub proof fn lemma_tags_survive_a_rewrite(before: World, id: ActorId, actor: Actor, after: World)
    requires
        before.tags_follow_blueprints(),
        before.valid(id),
        after.actors() == before.actors().update(id.0 as int, actor),
        forall|other: ActorId| #[trigger] after.spawn_tag(other) == before.spawn_tag(other),
        actor.blueprint == before.actors()[id.0 as int].blueprint,
    ensures
        after.tags_follow_blueprints(),
{
    assert forall|x: ActorId| after.valid(x) implies #[trigger] after.spawn_tag(x)
        == after.actors()[x.0 as int].blueprint@ by {
        assert(before.valid(x));
        assert(before.spawn_tag(x) == before.actors()[x.0 as int].blueprint@);
    }
}

/// The tag index follows the blueprints: so long as nobody has rewritten an
/// actor's blueprint, `tagged(t)` is the live list cut down to the actors
/// whose blueprint is `t`, in the same order.
pub proof fn lemma_tagged_is_the_live_actors_with_that_blueprint(world: World, tag: Seq<char>)
    requires
        world.tags_follow_blueprints(),
        world.unlisted_are_dead(),
    ensures
        world.tagged_ids(tag) == world.live().filter(
            |id: ActorId| world.actors()[id.0 as int].blueprint@ == tag,
        ),
{
    let p = has_tag(world.data.spawn_tags@, tag);
    let q = |id: ActorId| world.actors()[id.0 as int].blueprint@ == tag;
    assert forall|i: int| 0 <= i < world.live().len() implies p(#[trigger] world.live()[i]) == q(
        world.live()[i],
    ) by {
        assert(world.valid(world.live()[i]));
        assert(world.spawn_tag(world.live()[i]) == world.actors()[world.live()[i].0 as int].blueprint@);
    }
    lemma_filter_congruent(world.live(), p, q);
}

/// All the ids a world has handed out, in order.
pub open spec fn all_ids(n: nat) -> Seq<ActorId> {
    Seq::new(n, |i: int| ActorId(i as usize))
}

/// Straight after a cull, the live list is every actor ever spawned that is
/// not dead, in spawn order -- so long as nobody has brought a dead actor
/// back. Dead actors are unlinked, but their data is kept.
pub proof fn lemma_a_culled_list_is_every_live_actor(world: World)
    requires
        world.unlisted_are_dead(),
        in_spawn_order(world.live()),
        forall|k: int| 0 <= k < world.live().len() ==> !world.actors()[(#[trigger] world.live()[k]).0 as int].dead,
        world.actors().len() <= usize::MAX,
    ensures
        world.live() == alive(all_ids(world.actors().len()), world.actors()),
{
    let n = world.actors().len();
    let ids = all_ids(n);
    assert(in_spawn_order(ids));
    lemma_filter_sorted(ids, is_alive(world.actors()));
    lemma_filter_exactly(ids, is_alive(world.actors()));
    let b = alive(ids, world.actors());
    assert forall|x: ActorId| world.live().contains(x) <==> b.contains(x) by {
        if world.live().contains(x) {
            let k = choose|k: int| 0 <= k < world.live().len() && world.live()[k] == x;
            assert(world.valid(world.live()[k]));
            assert(ids[x.0 as int] == x);
        }
        if b.contains(x) {
            let i = choose|i: int| 0 <= i < ids.len() && ids[i] == x;
            assert(world.valid(x));
            assert(!world.actors()[x.0 as int].dead);
        }
    }
    lemma_same_members_in_spawn_order(world.live(), b);
}

/// Two lists in strict spawn order with the same members are the same list.
proof fn lemma_same_members_in_spawn_order(a: Seq<ActorId>, b: Seq<ActorId>)
    requires
        in_spawn_order(a),
        in_spawn_order(b),
        forall|x: ActorId| a.contains(x) <==> b.contains(x),
    ensures
        a == b,
    decreases a.len(),
{
    if a.len() == 0 {
        if b.len() > 0 {
            assert(b.contains(b[0]));
        }
        assert(a =~= b);
    } else {
        if b.len() == 0 {
            assert(a.contains(a[0]));
        }
        assert(a.contains(a[0]));
        assert(b.contains(b[0]));
        let j = choose|j: int| 0 <= j < b.len() && b[j] == a[0];
        let k = choose|k: int| 0 <= k < a.len() && a[k] == b[0];
        assert(a[0].0 == b[0].0);
        assert(a[0] == b[0]);
        let a1 = a.drop_first();
        let b1 = b.drop_first();
        assert forall|x: ActorId| a1.contains(x) <==> b1.contains(x) by {
            if a1.contains(x) {
                let i = choose|i: int| 0 <= i < a1.len() && a1[i] == x;
                assert(a[i + 1] == x);
                assert(a.contains(x));
                let i2 = choose|i2: int| 0 <= i2 < b.len() && b[i2] == x;
                assert(i2 != 0);
                assert(b1[i2 - 1] == x);
            }
            if b1.contains(x) {
                let i = choose|i: int| 0 <= i < b1.len() && b1[i] == x;
                assert(b[i + 1] == x);
                assert(b.contains(x));
                let i2 = choose|i2: int| 0 <= i2 < a.len() && a[i2] == x;
                assert(i2 != 0);
                assert(a1[i2 - 1] == x);
            }
        }
        lemma_same_members_in_spawn_order(a1, b1);
        assert(a =~= seq![a[0]] + a1);
        assert(b =~= seq![b[0]] + b1);
    }
}

/// A phase never runs a script on an actor it skips -- in an update phase, one
/// that is dead or paused; in a draw phase, one that is hidden -- and only ever
/// runs scripts from the actor's own list. So an actor that dies partway
/// through its script list runs none of the rest.
pub proof fn lemma_walk_never_runs_a_skipped_actor(
    before: PhaseRun,
    world: World,
    id: ActorId,
    kind: ScriptKind,
    after: PhaseRun,
)
    requires
        PhaseRun::steps(before, world, Some((id, kind)), after),
    ensures
        world.valid(id),
        !skips(before.phase(), world.actors()[id.0 as int]),
        world.actors()[id.0 as int].scripts@.contains(kind),
{
    if before.can_continue(world) {
        assert(world.actors()[id.0 as int].scripts@[before.index() as int] == kind);
    } else {
        assert(world.actors()[id.0 as int].scripts@[0] == kind);
    }
}

/// A phase walks the live list as it stands at each step, so it only finishes
/// once it has passed every actor on it, including any spawned onto the end
/// since the walk began: when the walk reports that it is done, every actor
/// from where it had got to the end of the live list had nothing to run.
pub proof fn lemma_walk_ends_only_past_the_live_list(
    before: PhaseRun,
    world: World,
    after: PhaseRun,
    q: int,
)
    requires
        PhaseRun::steps(before, world, None, after),
        !before.can_continue(world),
        before.position() <= q < world.live().len(),
    ensures
        yields_nothing(before.phase(), world.actors()[world.live()[q].0 as int]),
        after.position() == world.live().len(),
{
}

/// `tagged` lists live actors of that tag, in spawn order: exactly the live
/// actors spawned with the tag, and nothing else.
pub proof fn lemma_tagged_is_the_live_actors_of_that_tag(world: World, tag: Seq<char>)
    requires
        in_spawn_order(world.live()),
    ensures
        in_spawn_order(world.tagged_ids(tag)),
        forall|id: ActorId|
            #[trigger] world.tagged_ids(tag).contains(id) <==> (world.live().contains(id)
                && world.spawn_tag(id) == tag),
{
    lemma_filter_exactly(world.live(), has_tag(world.data.spawn_tags@, tag));
    lemma_filter_sorted(world.live(), has_tag(world.data.spawn_tags@, tag));
}

/// The cull removes exactly the dead and keeps everyone else in order: the
/// live list afterwards holds precisely the actors that were on it and not
/// dead, still in spawn order.
pub proof fn lemma_cull_removes_exactly_the_dead(live: Seq<ActorId>, actors: Seq<Actor>)
    requires
        in_spawn_order(live),
    ensures
        in_spawn_order(alive(live, actors)),
        forall|id: ActorId|
            #[trigger] alive(live, actors).contains(id) <==> (live.contains(id)
                && !actors[id.0 as int].dead),
{
    lemma_filter_exactly(live, is_alive(actors));
    lemma_filter_sorted(live, is_alive(actors));
}

/// Ids are never reused, and they never go stale: the id a spawn hands out
/// names no actor spawned before it, and every earlier id still names the
/// same actor afterwards -- dead or alive, culled or not.
pub proof fn lemma_ids_are_never_reused(
    before: World,
    actor: Actor,
    id: ActorId,
    after: World,
    other: ActorId,
)
    requires
        id.0 == before.actors().len(),
        after.actors() == before.actors().push(actor),
        before.valid(other),
    ensures
        other != id,
        after.valid(id),
        after.valid(other),
        after.actors()[id.0 as int] == actor,
        after.actors()[other.0 as int] == before.actors()[other.0 as int],
{
}

/// Killing an actor only marks it dead: every actor, it included, can still
/// be read through its id, and nothing else about any of them changes.
pub proof fn lemma_the_dead_stay_readable(before: World, id: ActorId, after: World, other: ActorId)
    requires
        before.valid(id),
        after.actors() == before.actors().update(
            id.0 as int,
            Actor { dead: true, ..before.actors()[id.0 as int] },
        ),
        before.valid(other),
    ensures
        after.valid(other),
        after.actors()[id.0 as int].dead,
        after.actors()[id.0 as int].blueprint == before.actors()[id.0 as int].blueprint,
        after.actors()[id.0 as int].scripts == before.actors()[id.0 as int].scripts,
        after.actors()[id.0 as int].player == before.actors()[id.0 as int].player,
        other != id ==> after.actors()[other.0 as int] == before.actors()[other.0 as int],
{
}

proof fn lemma_filter_exactly<A>(s: Seq<A>, p: spec_fn(A) -> bool)
    ensures
        forall|x: A| #[trigger] s.filter(p).contains(x) <==> (s.contains(x) && p(x)),
{
    assert forall|x: A| #[trigger] s.filter(p).contains(x) <==> (s.contains(x) && p(x)) by {
        if s.filter(p).contains(x) {
            s.lemma_filter_contains_rev(p, x);
            let i = choose|i: int| 0 <= i < s.filter(p).len() && s.filter(p)[i] == x;
            s.lemma_filter_pred(p, i);
        }
        if s.contains(x) && p(x) {
            let i = choose|i: int| 0 <= i < s.len() && s[i] == x;
            s.lemma_filter_contains(p, i);
        }
    }
}

/// An actor that a phase reaches but runs nothing on: one it skips, or one
/// with no scripts.
pub open spec fn yields_nothing(phase: Phase, actor: Actor) -> bool {
    skips(phase, actor) || actor.scripts@.len() == 0
}

} // verus!
