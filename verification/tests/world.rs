use pax_britannica::scripts::ScriptKind;
use pax_britannica::world::{draw_phases, update_phases, Actor, ActorId, Phase, PhaseRun, World};

fn actor_with(name: &'static str, scripts: &[ScriptKind]) -> Actor {
    let mut actor = Actor::new(name);
    actor.scripts = scripts.to_vec();
    actor
}

/// Runs one phase the way the game loop does, recording what it hands out,
/// and letting `on_run` react to each call as a script would.
fn run_phase(
    world: &mut World,
    phase: Phase,
    mut on_run: impl FnMut(&mut World, ActorId, ScriptKind),
) -> Vec<(ActorId, ScriptKind)> {
    let mut run = PhaseRun::new(phase);
    let mut log = Vec::new();
    while let Some((id, kind)) = run.next(world) {
        log.push((id, kind));
        on_run(world, id, kind);
    }
    log
}

#[test]
fn spawn_order_is_preserved() {
    let mut world = World::new();
    let a = world.spawn(Actor::new("a"));
    let b = world.spawn(Actor::new("b"));
    let c = world.spawn(Actor::new("c"));
    assert_eq!(world.order(), [a, b, c]);
}

#[test]
fn tags_index_by_blueprint_name_in_spawn_order() {
    let mut world = World::new();
    let first = world.spawn(Actor::new("fighter"));
    world.spawn(Actor::new("bomber"));
    let second = world.spawn(Actor::new("fighter"));

    assert_eq!(world.tagged("fighter"), [first, second]);
    assert_eq!(world.tagged("nothing"), []);
}

#[test]
fn cull_unlinks_the_dead_and_keeps_the_order() {
    let mut world = World::new();
    let a = world.spawn(Actor::new("a"));
    let b = world.spawn(Actor::new("b"));
    let c = world.spawn(Actor::new("c"));

    world.kill(b);
    world.cull();

    assert_eq!(world.order(), [a, c]);
    assert_eq!(world.tagged("b"), []);
}

#[test]
fn a_dead_actor_is_still_readable_through_its_id() {
    // an AI that stored a target last frame reads target.dead this frame;
    // that read has to stay valid
    let mut world = World::new();
    let id = world.spawn(actor_with("fighter", &[ScriptKind::Transform]));
    world.get_mut(id).player = Some(3);

    world.kill(id);
    world.cull();

    assert!(world.is_dead(id));
    assert_eq!(
        world.get(id).player,
        Some(3),
        "a culled actor's data must survive for stale references"
    );
    assert_eq!(world.get(id).scripts, [ScriptKind::Transform]);
}

#[test]
fn ids_are_never_reused() {
    let mut world = World::new();
    let first = world.spawn(Actor::new("a"));
    world.kill(first);
    world.cull();
    let second = world.spawn(Actor::new("b"));

    assert_ne!(first, second);
    assert_eq!(world.get(first).blueprint, "a");
    assert_eq!(world.get(second).blueprint, "b");
}

#[test]
fn an_actor_spawned_mid_phase_runs_in_that_phase() {
    // the walk sees actors appended during it, so a laser
    // created during `update` gets its own `update` the same frame. Miss
    // this and every projectile is a frame late.
    let mut world = World::new();
    let spawner = world.spawn(actor_with("spawner", &[ScriptKind::Ship]));
    let mut spawned = None;

    let log = run_phase(&mut world, Phase::Update, |world, id, _| {
        if id == spawner && spawned.is_none() {
            spawned = Some(world.spawn(actor_with("laser", &[ScriptKind::Bullet])));
        }
    });

    assert_eq!(
        log,
        [
            (spawner, ScriptKind::Ship),
            (spawned.unwrap(), ScriptKind::Bullet)
        ],
        "the spawned actor should have run in the same phase"
    );
}

#[test]
fn a_script_killing_its_actor_stops_that_actors_later_scripts() {
    let mut world = World::new();
    let id = world.spawn(actor_with("double", &[ScriptKind::Ship, ScriptKind::Bullet]));

    let log = run_phase(&mut world, Phase::Update, |world, id, _| world.kill(id));

    assert_eq!(
        log,
        [(id, ScriptKind::Ship)],
        "the second script on a dead actor should not have run"
    );
}

#[test]
fn a_dead_actor_is_skipped_by_later_phases_before_the_cull() {
    let mut world = World::new();
    let id = world.spawn(actor_with("probe", &[ScriptKind::Ship]));
    world.kill(id);

    let log = run_phase(&mut world, Phase::Update, |_, _, _| {});

    assert!(log.is_empty());
}

#[test]
fn live_count_ignores_the_dead() {
    let mut world = World::new();
    world.spawn(Actor::new("a"));
    let b = world.spawn(Actor::new("b"));
    world.kill(b);
    world.cull();

    assert_eq!(world.live_count(), 1);
    assert_eq!(world.total_spawned(), 2);
}

#[test]
fn draws_skip_the_hidden_and_updates_skip_the_paused() {
    let mut world = World::new();
    let hidden = world.spawn(actor_with("hidden", &[ScriptKind::Sprite]));
    let paused = world.spawn(actor_with("paused", &[ScriptKind::Sprite]));
    world.get_mut(hidden).hidden = true;
    world.get_mut(paused).paused = true;

    let updates = run_phase(&mut world, Phase::Update, |_, _, _| {});
    let draws = run_phase(&mut world, Phase::Draw, |_, _, _| {});

    assert_eq!(updates, [(hidden, ScriptKind::Sprite)]);
    assert_eq!(draws, [(paused, ScriptKind::Sprite)]);
}

#[test]
fn a_dead_actor_is_still_drawn_until_the_cull() {
    let mut world = World::new();
    let id = world.spawn(actor_with("wreck", &[ScriptKind::Sprite]));
    world.kill(id);

    let draws = run_phase(&mut world, Phase::Draw, |_, _, _| {});
    assert_eq!(draws, [(id, ScriptKind::Sprite)]);
}

#[test]
fn scripts_run_in_blueprint_order_and_actors_in_spawn_order() {
    let mut world = World::new();
    let a = world.spawn(actor_with("a", &[ScriptKind::Transform, ScriptKind::Ship]));
    world.spawn(Actor::new("empty"));
    let c = world.spawn(actor_with("c", &[ScriptKind::Bullet]));

    let log = run_phase(&mut world, Phase::Update, |_, _, _| {});
    assert_eq!(
        log,
        [
            (a, ScriptKind::Transform),
            (a, ScriptKind::Ship),
            (c, ScriptKind::Bullet)
        ]
    );
}

#[test]
fn has_looks_for_a_script() {
    let actor = actor_with("fighter", &[ScriptKind::Transform, ScriptKind::FighterAi]);
    assert!(actor.has(ScriptKind::FighterAi));
    assert!(!actor.has(ScriptKind::BomberAi));
}

#[test]
fn the_tag_index_follows_the_spawn_tag_and_the_cull() {
    let mut world = World::new();
    let a = world.spawn(Actor::new("fish"));
    let b = world.spawn(Actor::new("fish"));
    let c = world.spawn(Actor::new("fish"));
    world.kill(b);
    world.cull();
    assert_eq!(world.tagged("fish"), [a, c]);

    // renaming an actor does not move it between tags
    world.get_mut(a).blueprint = "debris";
    assert_eq!(world.tagged("fish"), [a, c]);
    assert_eq!(world.tagged("debris"), []);
}

#[test]
fn updates_and_draws_run_their_phases_in_order() {
    assert_eq!(
        update_phases(),
        [
            Phase::UpdateSetup,
            Phase::Update,
            Phase::CollisionRegistry,
            Phase::CollisionCheck,
            Phase::UpdateCleanup,
        ],
    );
    assert_eq!(draw_phases(), [Phase::DrawSetup, Phase::Draw, Phase::DrawForeground, Phase::FadeDraw]);
}

#[test]
fn after_a_cull_the_live_list_is_every_actor_not_dead() {
    let mut world = World::new();
    let ids: Vec<ActorId> = (0..6).map(|_| world.spawn(actor_with("fighter", &[ScriptKind::Ship]))).collect();
    world.kill(ids[1]);
    world.kill(ids[4]);
    world.cull();
    let expected: Vec<ActorId> = (0..world.total_spawned()).map(ActorId).filter(|&id| !world.is_dead(id)).collect();
    assert_eq!(world.order(), expected.as_slice());
    assert_eq!(world.tagged("fighter"), expected.as_slice());
}
