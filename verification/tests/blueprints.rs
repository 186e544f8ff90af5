use pax_britannica::blueprints::{self, bomber, missile};
use pax_britannica::scripts::ScriptKind;
use pax_britannica::the_game::{menu, new_scene};

#[test]
fn a_bombers_script_order_matches_the_blueprint() {
    // the ship moves before the AI steers it, every frame
    let actor = bomber(1);
    assert_eq!(
        actor.scripts,
        [
            ScriptKind::Transform,
            ScriptKind::Sprite,
            ScriptKind::Collision,
            ScriptKind::Ship,
            ScriptKind::BomberAi,
        ]
    );
}

#[test]
fn a_missile_is_a_ship_not_a_bullet() {
    let actor = missile(1);
    assert!(!actor.has(ScriptKind::Bullet));
    assert!(actor.has(ScriptKind::Ship));
    assert!(actor.has(ScriptKind::HeatseekingAi));
}

#[test]
fn both_factories_share_a_blueprint_and_differ_in_the_driver() {
    let human = blueprints::player_factory(1);
    let cpu = blueprints::easy_enemy_factory(2);
    assert_eq!(human.blueprint, "factory");
    assert_eq!(cpu.blueprint, "factory");
    assert_eq!(human.scripts.last(), Some(&ScriptKind::PlayerProduction));
    assert_eq!(cpu.scripts.last(), Some(&ScriptKind::EasyEnemyProduction));
    assert_eq!(human.scripts[..8], cpu.scripts[..8]);
    assert_eq!(cpu.player, Some(2));
}

#[test]
fn fades_in_and_out_are_the_same_actor() {
    assert_eq!(blueprints::fade_in().blueprint, "fade");
    assert_eq!(blueprints::fade_out().scripts, [ScriptKind::Fade]);
}

#[test]
fn the_scene_is_built_in_the_order_the_interpreter_builds_it() {
    let world = new_scene();
    let names: Vec<&str> = world
        .order()
        .iter()
        .map(|&id| world.get(id).blueprint)
        .collect();
    assert_eq!(
        names,
        [
            "exit_handler",
            "key_monitor",
            "opengl_setup",
            "collision",
            "tracer_cleanup",
            "log",
            "fast_forward",
            "the_one_button",
            "background_fx",
            "game_flow",
            "particles",
        ]
    );
}

#[test]
fn the_menu_is_four_prompts_then_the_title_and_a_fade() {
    let names: Vec<&str> = menu().iter().map(|actor| actor.blueprint).collect();
    assert_eq!(
        names,
        ["selection_factory", "selection_factory", "selection_factory", "selection_factory", "splash", "fade"],
    );
    assert!(menu().iter().all(|actor| actor.player.is_none() && !actor.dead));
}

#[test]
fn each_engine_component_runs_its_own_script() {
    let world = new_scene();
    let scripts: Vec<Vec<ScriptKind>> =
        world.order().iter().map(|&id| world.get(id).scripts.clone()).collect();
    assert_eq!(
        scripts,
        [
            vec![],
            vec![],
            vec![],
            vec![ScriptKind::CollisionChecker],
            vec![],
            vec![ScriptKind::LogTimer],
            vec![],
            vec![ScriptKind::TheOneButton],
            vec![ScriptKind::BackgroundFx],
            vec![ScriptKind::GameFlow],
            vec![ScriptKind::ParticleEmitters],
        ],
    );
}

#[test]
fn the_menu_runs_prompts_the_title_and_a_fade() {
    let actors = menu();
    for prompt in &actors[..4] {
        assert_eq!(prompt.scripts, [ScriptKind::Transform, ScriptKind::Sprite, ScriptKind::Selector]);
    }
    assert_eq!(actors[4].scripts, [ScriptKind::Splash]);
    assert_eq!(actors[5].scripts, [ScriptKind::Fade]);
}
