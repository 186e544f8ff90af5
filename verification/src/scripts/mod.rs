//! Per-actor scripts: which scripts exist, and the discrete state that some of
//! them keep.
use vstd::prelude::*;

pub mod bomber_ai;
pub mod collision;
pub mod countdown;
pub mod easy_enemy_production;
pub mod factory_ai;
pub mod factory_damage;
pub mod fade;
pub mod fighter_ai;
pub mod game_flow;
pub mod heatseeking_ai;
pub mod production;
pub mod selector;
pub mod ship;

verus! {

/// Every script a blueprint can carry. An actor's script list, in blueprint
/// order, is the order its scripts run within a phase.
#[derive(Clone, Copy, Debug, PartialEq, Eq, Structural, Hash)]
pub enum ScriptKind {
    Transform,
    Sprite,
    Collision,
    Ship,
    Bullet,
    FighterShooting,
    FighterAi,
    BomberShooting,
    BomberAi,
    FrigateShooting,
    FrigateAi,
    HeatseekingAi,
    FactoryDamage,
    FactoryAi,
    Resources,
    Production,
    PlayerProduction,
    EasyEnemyProduction,
    Selector,
    Countdown,
    Fade,
    GameFlow,
    Splash,
    BackgroundFx,
    Debris,
    Fish,
    /// The singleton that latches input.
    TheOneButton,
    /// The singleton that runs the broad/narrow phase of collisions.
    CollisionChecker,
    /// The singleton that counts elapsed frames for the log.
    LogTimer,
    /// The singleton that ages the particle emitters.
    ParticleEmitters,
}

} // verus!
