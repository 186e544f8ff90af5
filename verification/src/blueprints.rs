//! Blueprints: what each kind of actor is made of.
//!
//! A blueprint is a name and a list of scripts. **Script order is
//! load-bearing**: it is the order the scripts run within an actor, so each
//! list below is in that order. The starting values of each
//! script's data are set alongside, by whoever spawns the actor.
use vstd::prelude::*;

use crate::scripts::ScriptKind;
use crate::world::Actor;

verus! {

/// A fresh actor of blueprint `blueprint`, running `scripts`, owned by
/// `player` where it belongs to one.
fn made_of(blueprint: &'static str, scripts: Vec<ScriptKind>, player: Option<usize>) -> (actor: Actor)
    ensures
        actor.blueprint == blueprint,
        actor.scripts == scripts,
        actor.player == player,
        !actor.dead,
        !actor.paused,
        !actor.hidden,
{
    let mut actor = Actor::new(blueprint);
    actor.scripts = scripts;
    actor.player = player;
    actor
}

/// A laser: cheap, fast, fired by fighters.
pub fn laser(player: usize) -> (actor: Actor)
    ensures
        actor.blueprint@ == "laser"@,
        actor.scripts@ == seq![ScriptKind::Transform, ScriptKind::Sprite, ScriptKind::Collision, ScriptKind::Bullet],
        actor.player == Some(player),
        !actor.dead,
        !actor.paused,
        !actor.hidden,
{
    let mut scripts: Vec<ScriptKind> = Vec::new();
    scripts.push(ScriptKind::Transform);
    scripts.push(ScriptKind::Sprite);
    scripts.push(ScriptKind::Collision);
    scripts.push(ScriptKind::Bullet);
    made_of("laser", scripts, Some(player))
}

/// A bomb: slow, enormously damaging, lobbed sideways by bombers.
pub fn bomb(player: usize) -> (actor: Actor)
    ensures
        actor.blueprint@ == "bomb"@,
        actor.scripts@ == seq![ScriptKind::Transform, ScriptKind::Sprite, ScriptKind::Collision, ScriptKind::Bullet],
        actor.player == Some(player),
        !actor.dead,
        !actor.paused,
        !actor.hidden,
{
    let mut scripts: Vec<ScriptKind> = Vec::new();
    scripts.push(ScriptKind::Transform);
    scripts.push(ScriptKind::Sprite);
    scripts.push(ScriptKind::Collision);
    scripts.push(ScriptKind::Bullet);
    made_of("bomb", scripts, Some(player))
}

/// A missile: a projectile that steers, so it carries `ship` and an AI rather
/// than the `bullet` script. Everything that inspects projectiles has to cope
/// with that.
pub fn missile(player: usize) -> (actor: Actor)
    ensures
        actor.blueprint@ == "missile"@,
        actor.scripts@ == seq![ScriptKind::Transform, ScriptKind::Sprite, ScriptKind::Collision, ScriptKind::Ship, ScriptKind::HeatseekingAi],
        actor.player == Some(player),
        !actor.dead,
        !actor.paused,
        !actor.hidden,
{
    let mut scripts: Vec<ScriptKind> = Vec::new();
    scripts.push(ScriptKind::Transform);
    scripts.push(ScriptKind::Sprite);
    scripts.push(ScriptKind::Collision);
    scripts.push(ScriptKind::Ship);
    scripts.push(ScriptKind::HeatseekingAi);
    made_of("missile", scripts, Some(player))
}

/// A fighter: the ship moves before the gun reloads, and both before the AI
/// steers.
pub fn fighter(player: usize) -> (actor: Actor)
    ensures
        actor.blueprint@ == "fighter"@,
        actor.scripts@ == seq![ScriptKind::Transform, ScriptKind::Sprite, ScriptKind::Collision, ScriptKind::Ship, ScriptKind::FighterShooting, ScriptKind::FighterAi],
        actor.player == Some(player),
        !actor.dead,
        !actor.paused,
        !actor.hidden,
{
    let mut scripts: Vec<ScriptKind> = Vec::new();
    scripts.push(ScriptKind::Transform);
    scripts.push(ScriptKind::Sprite);
    scripts.push(ScriptKind::Collision);
    scripts.push(ScriptKind::Ship);
    scripts.push(ScriptKind::FighterShooting);
    scripts.push(ScriptKind::FighterAi);
    made_of("fighter", scripts, Some(player))
}

/// A bomber: the ship moves before the AI steers it, every frame.
pub fn bomber(player: usize) -> (actor: Actor)
    ensures
        actor.blueprint@ == "bomber"@,
        actor.scripts@ == seq![ScriptKind::Transform, ScriptKind::Sprite, ScriptKind::Collision, ScriptKind::Ship, ScriptKind::BomberAi],
        actor.player == Some(player),
        !actor.dead,
        !actor.paused,
        !actor.hidden,
{
    let mut scripts: Vec<ScriptKind> = Vec::new();
    scripts.push(ScriptKind::Transform);
    scripts.push(ScriptKind::Sprite);
    scripts.push(ScriptKind::Collision);
    scripts.push(ScriptKind::Ship);
    scripts.push(ScriptKind::BomberAi);
    made_of("bomber", scripts, Some(player))
}

/// A frigate.
pub fn frigate(player: usize) -> (actor: Actor)
    ensures
        actor.blueprint@ == "frigate"@,
        actor.scripts@ == seq![ScriptKind::Transform, ScriptKind::Sprite, ScriptKind::Collision, ScriptKind::Ship, ScriptKind::FrigateShooting, ScriptKind::FrigateAi],
        actor.player == Some(player),
        !actor.dead,
        !actor.paused,
        !actor.hidden,
{
    let mut scripts: Vec<ScriptKind> = Vec::new();
    scripts.push(ScriptKind::Transform);
    scripts.push(ScriptKind::Sprite);
    scripts.push(ScriptKind::Collision);
    scripts.push(ScriptKind::Ship);
    scripts.push(ScriptKind::FrigateShooting);
    scripts.push(ScriptKind::FrigateAi);
    made_of("frigate", scripts, Some(player))
}

/// A factory driven by a human on a button. The button is read after the
/// dial has run, so the dial always acts on the previous frame's input.
pub fn player_factory(player: usize) -> (actor: Actor)
    ensures
        actor.blueprint@ == "factory"@,
        actor.scripts@ == seq![ScriptKind::Transform, ScriptKind::Sprite, ScriptKind::Collision, ScriptKind::Ship, ScriptKind::FactoryDamage, ScriptKind::FactoryAi, ScriptKind::Resources, ScriptKind::Production, ScriptKind::PlayerProduction],
        actor.player == Some(player),
        !actor.dead,
        !actor.paused,
        !actor.hidden,
{
    let mut scripts: Vec<ScriptKind> = Vec::new();
    scripts.push(ScriptKind::Transform);
    scripts.push(ScriptKind::Sprite);
    scripts.push(ScriptKind::Collision);
    scripts.push(ScriptKind::Ship);
    scripts.push(ScriptKind::FactoryDamage);
    scripts.push(ScriptKind::FactoryAi);
    scripts.push(ScriptKind::Resources);
    scripts.push(ScriptKind::Production);
    scripts.push(ScriptKind::PlayerProduction);
    made_of("factory", scripts, Some(player))
}

/// A factory driven by the CPU's canned build orders.
pub fn easy_enemy_factory(player: usize) -> (actor: Actor)
    ensures
        actor.blueprint@ == "factory"@,
        actor.scripts@ == seq![ScriptKind::Transform, ScriptKind::Sprite, ScriptKind::Collision, ScriptKind::Ship, ScriptKind::FactoryDamage, ScriptKind::FactoryAi, ScriptKind::Resources, ScriptKind::Production, ScriptKind::EasyEnemyProduction],
        actor.player == Some(player),
        !actor.dead,
        !actor.paused,
        !actor.hidden,
{
    let mut scripts: Vec<ScriptKind> = Vec::new();
    scripts.push(ScriptKind::Transform);
    scripts.push(ScriptKind::Sprite);
    scripts.push(ScriptKind::Collision);
    scripts.push(ScriptKind::Ship);
    scripts.push(ScriptKind::FactoryDamage);
    scripts.push(ScriptKind::FactoryAi);
    scripts.push(ScriptKind::Resources);
    scripts.push(ScriptKind::Production);
    scripts.push(ScriptKind::EasyEnemyProduction);
    made_of("factory", scripts, Some(player))
}

/// The spawner that drops debris and fish.
pub fn background_fx() -> (actor: Actor)
    ensures
        actor.blueprint@ == "background_fx"@,
        actor.scripts@ == seq![ScriptKind::BackgroundFx],
        actor.player is None,
        !actor.dead,
        !actor.paused,
        !actor.hidden,
{
    let mut scripts: Vec<ScriptKind> = Vec::new();
    scripts.push(ScriptKind::BackgroundFx);
    made_of("background_fx", scripts, None)
}

/// A mote drifting in the background.
pub fn debris() -> (actor: Actor)
    ensures
        actor.blueprint@ == "debris"@,
        actor.scripts@ == seq![ScriptKind::Transform, ScriptKind::Debris, ScriptKind::Sprite],
        actor.player is None,
        !actor.dead,
        !actor.paused,
        !actor.hidden,
{
    let mut scripts: Vec<ScriptKind> = Vec::new();
    scripts.push(ScriptKind::Transform);
    scripts.push(ScriptKind::Debris);
    scripts.push(ScriptKind::Sprite);
    made_of("debris", scripts, None)
}

/// A fish swimming across the background.
pub fn fish() -> (actor: Actor)
    ensures
        actor.blueprint@ == "fish"@,
        actor.scripts@ == seq![ScriptKind::Transform, ScriptKind::Fish, ScriptKind::Sprite],
        actor.player is None,
        !actor.dead,
        !actor.paused,
        !actor.hidden,
{
    let mut scripts: Vec<ScriptKind> = Vec::new();
    scripts.push(ScriptKind::Transform);
    scripts.push(ScriptKind::Fish);
    scripts.push(ScriptKind::Sprite);
    made_of("fish", scripts, None)
}

/// The scene state machine, one per scene.
pub fn game_flow() -> (actor: Actor)
    ensures
        actor.blueprint@ == "game_flow"@,
        actor.scripts@ == seq![ScriptKind::GameFlow],
        actor.player is None,
        !actor.dead,
        !actor.paused,
        !actor.hidden,
{
    let mut scripts: Vec<ScriptKind> = Vec::new();
    scripts.push(ScriptKind::GameFlow);
    made_of("game_flow", scripts, None)
}

/// The title and credits on the menu screen.
pub fn splash() -> (actor: Actor)
    ensures
        actor.blueprint@ == "splash"@,
        actor.scripts@ == seq![ScriptKind::Splash],
        actor.player is None,
        !actor.dead,
        !actor.paused,
        !actor.hidden,
{
    let mut scripts: Vec<ScriptKind> = Vec::new();
    scripts.push(ScriptKind::Splash);
    made_of("splash", scripts, None)
}

/// One of the four "press to join" factories on the menu. It belongs to no
/// one: which player it stands for is its selector's business.
pub fn selection_factory() -> (actor: Actor)
    ensures
        actor.blueprint@ == "selection_factory"@,
        actor.scripts@ == seq![ScriptKind::Transform, ScriptKind::Sprite, ScriptKind::Selector],
        actor.player is None,
        !actor.dead,
        !actor.paused,
        !actor.hidden,
{
    let mut scripts: Vec<ScriptKind> = Vec::new();
    scripts.push(ScriptKind::Transform);
    scripts.push(ScriptKind::Sprite);
    scripts.push(ScriptKind::Selector);
    made_of("selection_factory", scripts, None)
}

/// The clock between the last join and the match.
pub fn countdown() -> (actor: Actor)
    ensures
        actor.blueprint@ == "countdown"@,
        actor.scripts@ == seq![ScriptKind::Countdown, ScriptKind::Sprite, ScriptKind::Transform],
        actor.player is None,
        !actor.dead,
        !actor.paused,
        !actor.hidden,
{
    let mut scripts: Vec<ScriptKind> = Vec::new();
    scripts.push(ScriptKind::Countdown);
    scripts.push(ScriptKind::Sprite);
    scripts.push(ScriptKind::Transform);
    made_of("countdown", scripts, None)
}

/// A fade from black to clear over one second.
pub fn fade_in() -> (actor: Actor)
    ensures
        actor.blueprint@ == "fade"@,
        actor.scripts@ == seq![ScriptKind::Fade],
        actor.player is None,
        !actor.dead,
        !actor.paused,
        !actor.hidden,
{
    let mut scripts: Vec<ScriptKind> = Vec::new();
    scripts.push(ScriptKind::Fade);
    made_of("fade", scripts, None)
}

/// A fade to black over one second, then its callback.
pub fn fade_out() -> (actor: Actor)
    ensures
        actor.blueprint@ == "fade"@,
        actor.scripts@ == seq![ScriptKind::Fade],
        actor.player is None,
        !actor.dead,
        !actor.paused,
        !actor.hidden,
{
    let mut scripts: Vec<ScriptKind> = Vec::new();
    scripts.push(ScriptKind::Fade);
    made_of("fade", scripts, None)
}

/// The generic actor that runs the collision checks each frame.
pub fn collision_checker() -> (actor: Actor)
    ensures
        actor.blueprint@ == "collision"@,
        actor.scripts@ == seq![ScriptKind::CollisionChecker],
        actor.player is None,
        !actor.dead,
        !actor.paused,
        !actor.hidden,
{
    let mut scripts: Vec<ScriptKind> = Vec::new();
    scripts.push(ScriptKind::CollisionChecker);
    made_of("collision", scripts, None)
}

/// The generic actor that counts elapsed frames for the log.
pub fn log_timer() -> (actor: Actor)
    ensures
        actor.blueprint@ == "log"@,
        actor.scripts@ == seq![ScriptKind::LogTimer],
        actor.player is None,
        !actor.dead,
        !actor.paused,
        !actor.hidden,
{
    let mut scripts: Vec<ScriptKind> = Vec::new();
    scripts.push(ScriptKind::LogTimer);
    made_of("log", scripts, None)
}

/// The generic actor that ages the particle emitters.
///
/// Spawned last, so the ageing happens after every script that might have
/// emitted this frame, and the two draw layers land on top of everything.
pub fn particle_emitters() -> (actor: Actor)
    ensures
        actor.blueprint@ == "particles"@,
        actor.scripts@ == seq![ScriptKind::ParticleEmitters],
        actor.player is None,
        !actor.dead,
        !actor.paused,
        !actor.hidden,
{
    let mut scripts: Vec<ScriptKind> = Vec::new();
    scripts.push(ScriptKind::ParticleEmitters);
    made_of("particles", scripts, None)
}

/// The generic actor that latches input in `update_setup`.
pub fn the_one_button() -> (actor: Actor)
    ensures
        actor.blueprint@ == "the_one_button"@,
        actor.scripts@ == seq![ScriptKind::TheOneButton],
        actor.player is None,
        !actor.dead,
        !actor.paused,
        !actor.hidden,
{
    let mut scripts: Vec<ScriptKind> = Vec::new();
    scripts.push(ScriptKind::TheOneButton);
    made_of("the_one_button", scripts, None)
}

} // verus!
