//! The game's scene: which actors a fresh scene starts with, and in what
//! order.
//!
//! A scene starts with its actors in a fixed order: one per engine component
//! that wants a callback, then the background effects, the scene machine, and
//! the particle emitters. **That order is the frame's update and draw order**,
//! so it is kept exactly, even for components whose actors do nothing
//! outside a window. (The sea has no actor: it is a gradient the renderer draws,
//! not a sprite an actor wears.)
use vstd::prelude::*;

use crate::blueprints;
use crate::scripts::ScriptKind;
use crate::world::{Actor, World};

verus! {

/// The blueprints a fresh scene's actors are spawned from, in spawn order.
pub open spec fn scene_blueprints() -> Seq<Seq<char>> {
    seq![
        "exit_handler"@,
        "key_monitor"@,
        "opengl_setup"@,
        "collision"@,
        "tracer_cleanup"@,
        "log"@,
        "fast_forward"@,
        "the_one_button"@,
        "background_fx"@,
        "game_flow"@,
        "particles"@,
    ]
}

/// The scripts each of a fresh scene's actors runs, in spawn order: the
/// engine components that want a callback each run theirs, and the generic
/// actors of the others run none.
pub open spec fn scene_scripts() -> Seq<Seq<ScriptKind>> {
    seq![
        Seq::<ScriptKind>::empty(),
        Seq::<ScriptKind>::empty(),
        Seq::<ScriptKind>::empty(),
        seq![ScriptKind::CollisionChecker],
        Seq::<ScriptKind>::empty(),
        seq![ScriptKind::LogTimer],
        Seq::<ScriptKind>::empty(),
        seq![ScriptKind::TheOneButton],
        seq![ScriptKind::BackgroundFx],
        seq![ScriptKind::GameFlow],
        seq![ScriptKind::ParticleEmitters],
    ]
}

/// A generic actor created by an engine component. In play these do nothing -- they poll a keyboard, set up
/// a viewport, tidy up debug tracers -- but they hold places in the spawn
/// order, so they are spawned rather than skipped.
fn generic(name: &'static str) -> (actor: Actor)
    ensures
        actor.blueprint == name,
        actor.scripts@ == Seq::<ScriptKind>::empty(),
        !actor.dead,
        actor.player is None,
{
    Actor::new(name)
}

/// Whether `world`'s actor `i` is the scene's `i`-th: spawned `i`-th, from
/// the `i`-th blueprint, running the `i`-th scripts, alive and unowned.
pub open spec fn scene_actor(world: World, i: int) -> bool {
    &&& world.live()[i].0 == i
    &&& world.actors()[i].blueprint@ == scene_blueprints()[i]
    &&& world.actors()[i].scripts@ == scene_scripts()[i]
    &&& !world.actors()[i].dead
    &&& world.actors()[i].player is None
}

/// The world of a fresh scene: the engine's actors, the background effects,
/// the scene machine and the particle emitters, spawned in their fixed
/// order. Nothing here touches the random stream, so a new
/// scene can be built eagerly and the stream carried over untouched.
pub fn new_scene() -> (world: World)
    ensures
        world.live().len() == scene_blueprints().len(),
        world.actors().len() == scene_blueprints().len(),
        forall|i: int| 0 <= i < scene_blueprints().len() ==> #[trigger] scene_actor(world, i),
        world.tags_follow_blueprints(),
        world.unlisted_are_dead(),
{
    let mut world = World::new();
    world.spawn(generic("exit_handler"));
    assert(scene_actor(world, 0));
    world.spawn(generic("key_monitor"));
    assert(scene_actor(world, 1));
    world.spawn(generic("opengl_setup"));
    assert(scene_actor(world, 2));
    world.spawn(blueprints::collision_checker());
    assert(scene_actor(world, 3));
    world.spawn(generic("tracer_cleanup"));
    assert(scene_actor(world, 4));
    world.spawn(blueprints::log_timer());
    assert(scene_actor(world, 5));
    world.spawn(generic("fast_forward"));
    assert(scene_actor(world, 6));
    world.spawn(blueprints::the_one_button());
    assert(scene_actor(world, 7));
    world.spawn(blueprints::background_fx());
    assert(scene_actor(world, 8));
    world.spawn(blueprints::game_flow());
    assert(scene_actor(world, 9));
    world.spawn(blueprints::particle_emitters());
    assert(scene_actor(world, 10));
    assert(forall|i: int| 0 <= i < 10 ==> #[trigger] scene_actor(world, i));
    world
}

/// The blueprints of the menu the scene machine puts up, in spawn order:
/// the four join prompts, players 1 to 4 from left to right, then the title
/// and a fade in.
pub open spec fn menu_blueprints() -> Seq<Seq<char>> {
    seq![
        "selection_factory"@,
        "selection_factory"@,
        "selection_factory"@,
        "selection_factory"@,
        "splash"@,
        "fade"@,
    ]
}

/// The menu's actors, in the order they are spawned: the spawn order is the
/// order they are updated and drawn in, and the join prompts' order is the
/// players' order.
pub fn menu() -> (actors: Vec<Actor>)
    ensures
        actors@.len() == menu_blueprints().len(),
        forall|i: int|
            0 <= i < menu_blueprints().len() ==> {
                &&& (#[trigger] actors@[i]).blueprint@ == menu_blueprints()[i]
                &&& !actors@[i].dead
                &&& actors@[i].player is None
            },
        forall|i: int| 0 <= i < 4 ==> (#[trigger] actors@[i]).scripts@ == seq![
            ScriptKind::Transform,
            ScriptKind::Sprite,
            ScriptKind::Selector,
        ],
        actors@[4].scripts@ == seq![ScriptKind::Splash],
        actors@[5].scripts@ == seq![ScriptKind::Fade],
{
    let mut actors: Vec<Actor> = Vec::new();
    actors.push(blueprints::selection_factory());
    actors.push(blueprints::selection_factory());
    actors.push(blueprints::selection_factory());
    actors.push(blueprints::selection_factory());
    actors.push(blueprints::splash());
    actors.push(blueprints::fade_in());
    actors
}

} // verus!
