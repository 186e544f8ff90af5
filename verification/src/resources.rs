//! Names for the game's art.
//!
//! Identifiers only: gameplay says which image an actor wears, by name. Where each image lives on disk and how it is
//! filtered is the renderer's business.
use vstd::prelude::*;

use crate::text::str_eq;

verus! {

/// Which of the four players a per-player sprite belongs to. 1-based.
pub type Player = usize;

#[derive(Clone, Copy, Debug, PartialEq, Eq, Structural, Hash)]
pub enum SpriteId {
    Loading,
    Title,
    Credits,
    AButton,
    Fighter(Player),
    Bomber(Player),
    Frigate(Player),
    Factory(Player),
    /// Neutral factory art, used by the player-select ships and the CPU.
    FactorySprite,
    FactoryLightDamage(usize),
    FactoryHeavyDamage(usize),
    Number(usize),
    ProductionLayer(usize),
    Needle,
    FighterPreview,
    BomberPreview,
    FrigatePreview,
    UpgradePreview,
    HealthFull,
    HealthSome,
    HealthNone,
    Laser,
    Bomb,
    Missile,
    Bubble,
    BigBubble,
    Explosion,
    Spark,
    Debris(usize),
    Fish(usize),
}

/// Whether the game has an image by this name: per-player art for players 1
/// to 4, three of each damage, production and debris layer, five digits and
/// eight fish.
pub open spec fn is_sprite(id: SpriteId) -> bool {
    match id {
        SpriteId::Fighter(p) | SpriteId::Bomber(p) | SpriteId::Frigate(p) | SpriteId::Factory(
            p,
        ) => 1 <= p <= 4,
        SpriteId::FactoryLightDamage(n) | SpriteId::FactoryHeavyDamage(n)
        | SpriteId::ProductionLayer(n) | SpriteId::Debris(n) => 1 <= n <= 3,
        SpriteId::Number(n) => 1 <= n <= 5,
        SpriteId::Fish(n) => 1 <= n <= 8,
        _ => true,
    }
}

/// Where per-player art for `stem` lives: `sprites/<stem>_p<n>.png`, with
/// anything but the three ship stems taken as the factory, and any player
/// number past 3 taken as player 4.
pub open spec fn per_player_path(stem: Seq<char>, player: usize) -> Seq<char> {
    if stem == "fighter"@ {
        if player == 1 { "sprites/fighter_p1.png"@ } else if player == 2 { "sprites/fighter_p2.png"@ } else if player == 3 { "sprites/fighter_p3.png"@ } else { "sprites/fighter_p4.png"@ }
    } else if stem == "bomber"@ {
        if player == 1 { "sprites/bomber_p1.png"@ } else if player == 2 { "sprites/bomber_p2.png"@ } else if player == 3 { "sprites/bomber_p3.png"@ } else { "sprites/bomber_p4.png"@ }
    } else if stem == "frigate"@ {
        if player == 1 { "sprites/frigate_p1.png"@ } else if player == 2 { "sprites/frigate_p2.png"@ } else if player == 3 { "sprites/frigate_p3.png"@ } else { "sprites/frigate_p4.png"@ }
    } else {
        if player == 1 { "sprites/factory_p1.png"@ } else if player == 2 { "sprites/factory_p2.png"@ } else if player == 3 { "sprites/factory_p3.png"@ } else { "sprites/factory_p4.png"@ }
    }
}

/// The file an image is loaded from.
pub open spec fn sprite_path(id: SpriteId) -> Seq<char> {
    match id {
        SpriteId::Loading => "sprites/loading.png"@,
        SpriteId::Title => "sprites/title.png"@,
        SpriteId::Credits => "sprites/credits.png"@,
        SpriteId::AButton => "sprites/a_button.png"@,
        SpriteId::Fighter(p) => per_player_path("fighter"@, p),
        SpriteId::Bomber(p) => per_player_path("bomber"@, p),
        SpriteId::Frigate(p) => per_player_path("frigate"@, p),
        SpriteId::Factory(p) => per_player_path("factory"@, p),
        SpriteId::FactorySprite => per_player_path("factory"@, 1),
        SpriteId::FactoryLightDamage(n) => if n == 1 { "sprites/factory_light_damage_1.png"@ } else if n == 2 { "sprites/factory_light_damage_2.png"@ } else { "sprites/factory_light_damage_3.png"@ },
        SpriteId::FactoryHeavyDamage(n) => if n == 1 { "sprites/factory_heavy_damage_1.png"@ } else if n == 2 { "sprites/factory_heavy_damage_2.png"@ } else { "sprites/factory_heavy_damage_3.png"@ },
        SpriteId::Number(n) => if n == 1 { "sprites/1.png"@ } else if n == 2 { "sprites/2.png"@ } else if n == 3 { "sprites/3.png"@ } else if n == 4 { "sprites/4.png"@ } else { "sprites/5.png"@ },
        SpriteId::ProductionLayer(n) => if n == 1 { "sprites/production1.png"@ } else if n == 2 { "sprites/production2.png"@ } else { "sprites/production3.png"@ },
        SpriteId::Needle => "sprites/needle.png"@,
        SpriteId::FighterPreview => "sprites/fighter_outline.png"@,
        SpriteId::BomberPreview => "sprites/bomber_outline.png"@,
        SpriteId::FrigatePreview => "sprites/frigate_outline.png"@,
        SpriteId::UpgradePreview => "sprites/upgrade_outline.png"@,
        SpriteId::HealthFull => "sprites/health_full.png"@,
        SpriteId::HealthSome => "sprites/health_some.png"@,
        SpriteId::HealthNone => "sprites/health_none.png"@,
        SpriteId::Laser => "sprites/laser.png"@,
        SpriteId::Bomb => "sprites/bomb.png"@,
        SpriteId::Missile => "sprites/missile.png"@,
        SpriteId::Bubble => "sprites/bubble.png"@,
        SpriteId::BigBubble => "sprites/big_bubble.png"@,
        SpriteId::Explosion => "sprites/explosion.png"@,
        SpriteId::Spark => "sprites/spark.png"@,
        SpriteId::Debris(n) => if n == 1 { "sprites/debris_large.png"@ } else if n == 2 { "sprites/debris_med.png"@ } else { "sprites/debris_small.png"@ },
        SpriteId::Fish(n) => if n == 1 { "sprites/fish1.png"@ } else if n == 2 { "sprites/fish2.png"@ } else if n == 3 { "sprites/fish3.png"@ } else if n == 4 { "sprites/fish4.png"@ } else if n == 5 { "sprites/fish5.png"@ } else if n == 6 { "sprites/fish6.png"@ } else if n == 7 { "sprites/fish7.png"@ } else { "sprites/fish8.png"@ },
    }
}

/// Whether an image is smoothed after loading: linear
/// filtering instead of nearest, for the things that move or scale
/// continuously.
pub open spec fn is_smooth(id: SpriteId) -> bool {
    match id {
        SpriteId::Factory(p) => true,
        SpriteId::FactorySprite => true,
        SpriteId::ProductionLayer(n) => true,
        SpriteId::Needle => true,
        SpriteId::FighterPreview => true,
        SpriteId::BomberPreview => true,
        SpriteId::FrigatePreview => true,
        SpriteId::UpgradePreview => true,
        SpriteId::HealthFull => true,
        SpriteId::HealthSome => true,
        SpriteId::HealthNone => true,
        SpriteId::Fish(n) => true,
        _ => false,
    }
}

/// Per-player art: `sprites/fighter_p1.png` and friends, 1-based.
fn per_player(stem: &str, player: Player) -> (path: &'static str)
    ensures
        path@ == per_player_path(stem@, player),
{
    // the table is tiny and fixed, so the paths are literals rather than
    // formatted at load time
    if str_eq(stem, "fighter") {
        if player == 1 { "sprites/fighter_p1.png" } else if player == 2 { "sprites/fighter_p2.png" } else if player == 3 { "sprites/fighter_p3.png" } else { "sprites/fighter_p4.png" }
    } else if str_eq(stem, "bomber") {
        if player == 1 { "sprites/bomber_p1.png" } else if player == 2 { "sprites/bomber_p2.png" } else if player == 3 { "sprites/bomber_p3.png" } else { "sprites/bomber_p4.png" }
    } else if str_eq(stem, "frigate") {
        if player == 1 { "sprites/frigate_p1.png" } else if player == 2 { "sprites/frigate_p2.png" } else if player == 3 { "sprites/frigate_p3.png" } else { "sprites/frigate_p4.png" }
    } else {
        if player == 1 { "sprites/factory_p1.png" } else if player == 2 { "sprites/factory_p2.png" } else if player == 3 { "sprites/factory_p3.png" } else { "sprites/factory_p4.png" }
    }
}

impl SpriteId {
    /// The file this image is loaded from.
    pub fn path(self) -> (path: &'static str)
        ensures
            path@ == sprite_path(self),
    {
        match self {
            SpriteId::Loading => "sprites/loading.png",
            SpriteId::Title => "sprites/title.png",
            SpriteId::Credits => "sprites/credits.png",
            SpriteId::AButton => "sprites/a_button.png",
            SpriteId::Fighter(p) => per_player("fighter", p),
            SpriteId::Bomber(p) => per_player("bomber", p),
            SpriteId::Frigate(p) => per_player("frigate", p),
            SpriteId::Factory(p) => per_player("factory", p),
            SpriteId::FactorySprite => per_player("factory", 1),
            SpriteId::FactoryLightDamage(n) => if n == 1 { "sprites/factory_light_damage_1.png" } else if n == 2 { "sprites/factory_light_damage_2.png" } else { "sprites/factory_light_damage_3.png" },
            SpriteId::FactoryHeavyDamage(n) => if n == 1 { "sprites/factory_heavy_damage_1.png" } else if n == 2 { "sprites/factory_heavy_damage_2.png" } else { "sprites/factory_heavy_damage_3.png" },
            SpriteId::Number(n) => if n == 1 { "sprites/1.png" } else if n == 2 { "sprites/2.png" } else if n == 3 { "sprites/3.png" } else if n == 4 { "sprites/4.png" } else { "sprites/5.png" },
            SpriteId::ProductionLayer(n) => if n == 1 { "sprites/production1.png" } else if n == 2 { "sprites/production2.png" } else { "sprites/production3.png" },
            SpriteId::Needle => "sprites/needle.png",
            SpriteId::FighterPreview => "sprites/fighter_outline.png",
            SpriteId::BomberPreview => "sprites/bomber_outline.png",
            SpriteId::FrigatePreview => "sprites/frigate_outline.png",
            SpriteId::UpgradePreview => "sprites/upgrade_outline.png",
            SpriteId::HealthFull => "sprites/health_full.png",
            SpriteId::HealthSome => "sprites/health_some.png",
            SpriteId::HealthNone => "sprites/health_none.png",
            SpriteId::Laser => "sprites/laser.png",
            SpriteId::Bomb => "sprites/bomb.png",
            SpriteId::Missile => "sprites/missile.png",
            SpriteId::Bubble => "sprites/bubble.png",
            SpriteId::BigBubble => "sprites/big_bubble.png",
            SpriteId::Explosion => "sprites/explosion.png",
            SpriteId::Spark => "sprites/spark.png",
            SpriteId::Debris(n) => if n == 1 { "sprites/debris_large.png" } else if n == 2 { "sprites/debris_med.png" } else { "sprites/debris_small.png" },
            SpriteId::Fish(n) => if n == 1 { "sprites/fish1.png" } else if n == 2 { "sprites/fish2.png" } else if n == 3 { "sprites/fish3.png" } else if n == 4 { "sprites/fish4.png" } else if n == 5 { "sprites/fish5.png" } else if n == 6 { "sprites/fish6.png" } else if n == 7 { "sprites/fish7.png" } else { "sprites/fish8.png" },
        }
    }

    /// Whether this image is smoothed after loading.
    pub fn smooth(self) -> (smooth: bool)
        ensures
            smooth == is_smooth(self),
    {
        match self {
            SpriteId::Factory(_) => true,
            SpriteId::FactorySprite => true,
            SpriteId::ProductionLayer(_) => true,
            SpriteId::Needle => true,
            SpriteId::FighterPreview => true,
            SpriteId::BomberPreview => true,
            SpriteId::FrigatePreview => true,
            SpriteId::UpgradePreview => true,
            SpriteId::HealthFull => true,
            SpriteId::HealthSome => true,
            SpriteId::HealthNone => true,
            SpriteId::Fish(_) => true,
            _ => false,
        }
    }
}

/// How many images the game has.
pub open spec fn sprite_count() -> int {
    61
}

/// The twenty images that come one of a kind, in loading order.
pub open spec fn single_sprite(i: int) -> SpriteId {
    if i == 0 {
        SpriteId::Loading
    } else if i == 1 {
        SpriteId::Title
    } else if i == 2 {
        SpriteId::Credits
    } else if i == 3 {
        SpriteId::AButton
    } else if i == 4 {
        SpriteId::FactorySprite
    } else if i == 5 {
        SpriteId::Needle
    } else if i == 6 {
        SpriteId::FighterPreview
    } else if i == 7 {
        SpriteId::BomberPreview
    } else if i == 8 {
        SpriteId::FrigatePreview
    } else if i == 9 {
        SpriteId::UpgradePreview
    } else if i == 10 {
        SpriteId::HealthFull
    } else if i == 11 {
        SpriteId::HealthSome
    } else if i == 12 {
        SpriteId::HealthNone
    } else if i == 13 {
        SpriteId::Laser
    } else if i == 14 {
        SpriteId::Bomb
    } else if i == 15 {
        SpriteId::Missile
    } else if i == 16 {
        SpriteId::Bubble
    } else if i == 17 {
        SpriteId::BigBubble
    } else if i == 18 {
        SpriteId::Explosion
    } else {
        SpriteId::Spark
    }
}

/// The `i`-th image in loading order: the singles, then each player's ship
/// art, then the numbered layers, the digits and the fish.
pub open spec fn sprite_at(i: int) -> SpriteId {
    if i < 20 {
        single_sprite(i)
    } else if i < 36 {
        let p = ((i - 20) / 4 + 1) as usize;
        let k = (i - 20) % 4;
        if k == 0 {
            SpriteId::Fighter(p)
        } else if k == 1 {
            SpriteId::Bomber(p)
        } else if k == 2 {
            SpriteId::Frigate(p)
        } else {
            SpriteId::Factory(p)
        }
    } else if i < 48 {
        let n = ((i - 36) / 4 + 1) as usize;
        let k = (i - 36) % 4;
        if k == 0 {
            SpriteId::FactoryLightDamage(n)
        } else if k == 1 {
            SpriteId::FactoryHeavyDamage(n)
        } else if k == 2 {
            SpriteId::ProductionLayer(n)
        } else {
            SpriteId::Debris(n)
        }
    } else if i < 53 {
        SpriteId::Number((i - 47) as usize)
    } else {
        SpriteId::Fish((i - 52) as usize)
    }
}

/// Where an image comes in loading order.
pub open spec fn sprite_rank(id: SpriteId) -> int {
    match id {
        SpriteId::Loading => 0,
        SpriteId::Title => 1,
        SpriteId::Credits => 2,
        SpriteId::AButton => 3,
        SpriteId::FactorySprite => 4,
        SpriteId::Needle => 5,
        SpriteId::FighterPreview => 6,
        SpriteId::BomberPreview => 7,
        SpriteId::FrigatePreview => 8,
        SpriteId::UpgradePreview => 9,
        SpriteId::HealthFull => 10,
        SpriteId::HealthSome => 11,
        SpriteId::HealthNone => 12,
        SpriteId::Laser => 13,
        SpriteId::Bomb => 14,
        SpriteId::Missile => 15,
        SpriteId::Bubble => 16,
        SpriteId::BigBubble => 17,
        SpriteId::Explosion => 18,
        SpriteId::Spark => 19,
        SpriteId::Fighter(p) => 20 + 4 * (p - 1),
        SpriteId::Bomber(p) => 21 + 4 * (p - 1),
        SpriteId::Frigate(p) => 22 + 4 * (p - 1),
        SpriteId::Factory(p) => 23 + 4 * (p - 1),
        SpriteId::FactoryLightDamage(n) => 36 + 4 * (n - 1),
        SpriteId::FactoryHeavyDamage(n) => 37 + 4 * (n - 1),
        SpriteId::ProductionLayer(n) => 38 + 4 * (n - 1),
        SpriteId::Debris(n) => 39 + 4 * (n - 1),
        SpriteId::Number(n) => 47 + n,
        SpriteId::Fish(n) => 52 + n,
    }
}

/// Every image the game can ask for, so the renderer can load them all up front.
pub fn all() -> (ids: Vec<SpriteId>)
    ensures
        ids@ == Seq::new(sprite_count() as nat, |i: int| sprite_at(i)),
{
    let mut ids: Vec<SpriteId> = Vec::new();
    ids.push(SpriteId::Loading);
    ids.push(SpriteId::Title);
    ids.push(SpriteId::Credits);
    ids.push(SpriteId::AButton);
    ids.push(SpriteId::FactorySprite);
    ids.push(SpriteId::Needle);
    ids.push(SpriteId::FighterPreview);
    ids.push(SpriteId::BomberPreview);
    ids.push(SpriteId::FrigatePreview);
    ids.push(SpriteId::UpgradePreview);
    ids.push(SpriteId::HealthFull);
    ids.push(SpriteId::HealthSome);
    ids.push(SpriteId::HealthNone);
    ids.push(SpriteId::Laser);
    ids.push(SpriteId::Bomb);
    ids.push(SpriteId::Missile);
    ids.push(SpriteId::Bubble);
    ids.push(SpriteId::BigBubble);
    ids.push(SpriteId::Explosion);
    ids.push(SpriteId::Spark);
    assert(forall|j: int| 0 <= j < 20 ==> ids@[j] == sprite_at(j));

    let mut player: usize = 1;
    while player <= 4
        invariant
            1 <= player <= 5,
            ids@.len() == 20 + 4 * (player - 1),
            forall|j: int| 0 <= j < ids@.len() ==> ids@[j] == sprite_at(j),
        decreases 5 - player,
    {
        ids.push(SpriteId::Fighter(player));
        ids.push(SpriteId::Bomber(player));
        ids.push(SpriteId::Frigate(player));
        ids.push(SpriteId::Factory(player));
        player = player + 1;
    }
    let mut n: usize = 1;
    while n <= 3
        invariant
            1 <= n <= 4,
            ids@.len() == 36 + 4 * (n - 1),
            forall|j: int| 0 <= j < ids@.len() ==> ids@[j] == sprite_at(j),
        decreases 4 - n,
    {
        ids.push(SpriteId::FactoryLightDamage(n));
        ids.push(SpriteId::FactoryHeavyDamage(n));
        ids.push(SpriteId::ProductionLayer(n));
        ids.push(SpriteId::Debris(n));
        n = n + 1;
    }
    let mut n: usize = 1;
    while n <= 5
        invariant
            1 <= n <= 6,
            ids@.len() == 47 + n,
            forall|j: int| 0 <= j < ids@.len() ==> ids@[j] == sprite_at(j),
        decreases 6 - n,
    {
        ids.push(SpriteId::Number(n));
        n = n + 1;
    }
    let mut n: usize = 1;
    while n <= 8
        invariant
            1 <= n <= 9,
            ids@.len() == 52 + n,
            forall|j: int| 0 <= j < ids@.len() ==> ids@[j] == sprite_at(j),
        decreases 9 - n,
    {
        ids.push(SpriteId::Fish(n));
        n = n + 1;
    }
    assert(ids@ =~= Seq::new(sprite_count() as nat, |i: int| sprite_at(i)));
    ids
}

/// The list of images names each one exactly once: the image at a place in
/// it is the one whose place that is.
pub proof fn lemma_sprite_list_has_no_repeats(i: int)
    requires
        0 <= i < sprite_count(),
    ensures
        sprite_rank(sprite_at(i)) == i,
        is_sprite(sprite_at(i)),
{
}

/// Every image the game can ask for is in the list, at its own place.
pub proof fn lemma_every_sprite_is_listed(id: SpriteId)
    requires
        is_sprite(id),
    ensures
        0 <= sprite_rank(id) < sprite_count(),
        sprite_at(sprite_rank(id)) == id,
{
}

/// A file name's key: its length, its tenth character, its eighteenth (a
/// space when it is shorter), and the character before its extension. No two
/// of the game's files share a key.
pub open spec fn path_key(p: Seq<char>) -> (int, char, char, char) {
    (p.len() as int, p[9], if p.len() > 17 { p[17] } else { ' ' }, p[p.len() - 5])
}

/// The image whose file has key `k`; the neutral factory art shares
/// player 1's file, and reads as that.
pub open spec fn sprite_of_key(k: (int, char, char, char)) -> SpriteId {
    if k == (19int, 'o', 'n', 'g') {
        SpriteId::Loading
    } else if k == (17int, 'i', ' ', 'e') {
        SpriteId::Title
    } else if k == (19int, 'r', 'n', 's') {
        SpriteId::Credits
    } else if k == (20int, '_', 'p', 'n') {
        SpriteId::AButton
    } else if k == (18int, 'e', 'g', 'e') {
        SpriteId::Needle
    } else if k == (27int, 'i', 'u', 'e') {
        SpriteId::FighterPreview
    } else if k == (26int, 'o', 't', 'e') {
        SpriteId::BomberPreview
    } else if k == (27int, 'r', 'u', 'e') {
        SpriteId::FrigatePreview
    } else if k == (27int, 'p', 'u', 'e') {
        SpriteId::UpgradePreview
    } else if k == (23int, 'e', 'l', 'l') {
        SpriteId::HealthFull
    } else if k == (23int, 'e', 'm', 'e') {
        SpriteId::HealthSome
    } else if k == (23int, 'e', 'n', 'e') {
        SpriteId::HealthNone
    } else if k == (17int, 'a', ' ', 'r') {
        SpriteId::Laser
    } else if k == (16int, 'o', ' ', 'b') {
        SpriteId::Bomb
    } else if k == (19int, 'i', 'n', 'e') {
        SpriteId::Missile
    } else if k == (18int, 'u', 'g', 'e') {
        SpriteId::Bubble
    } else if k == (22int, 'i', 'e', 'e') {
        SpriteId::BigBubble
    } else if k == (21int, 'x', '.', 'n') {
        SpriteId::Explosion
    } else if k == (17int, 'p', ' ', 'k') {
        SpriteId::Spark
    } else if k == (22int, 'i', '1', '1') {
        SpriteId::Fighter(1)
    } else if k == (22int, 'i', '2', '2') {
        SpriteId::Fighter(2)
    } else if k == (22int, 'i', '3', '3') {
        SpriteId::Fighter(3)
    } else if k == (22int, 'i', '4', '4') {
        SpriteId::Fighter(4)
    } else if k == (21int, 'o', '.', '1') {
        SpriteId::Bomber(1)
    } else if k == (21int, 'o', '.', '2') {
        SpriteId::Bomber(2)
    } else if k == (21int, 'o', '.', '3') {
        SpriteId::Bomber(3)
    } else if k == (21int, 'o', '.', '4') {
        SpriteId::Bomber(4)
    } else if k == (22int, 'r', '1', '1') {
        SpriteId::Frigate(1)
    } else if k == (22int, 'r', '2', '2') {
        SpriteId::Frigate(2)
    } else if k == (22int, 'r', '3', '3') {
        SpriteId::Frigate(3)
    } else if k == (22int, 'r', '4', '4') {
        SpriteId::Frigate(4)
    } else if k == (22int, 'a', '1', '1') {
        SpriteId::Factory(1)
    } else if k == (22int, 'a', '2', '2') {
        SpriteId::Factory(2)
    } else if k == (22int, 'a', '3', '3') {
        SpriteId::Factory(3)
    } else if k == (22int, 'a', '4', '4') {
        SpriteId::Factory(4)
    } else if k == (34int, 'a', 'i', '1') {
        SpriteId::FactoryLightDamage(1)
    } else if k == (34int, 'a', 'i', '2') {
        SpriteId::FactoryLightDamage(2)
    } else if k == (34int, 'a', 'i', '3') {
        SpriteId::FactoryLightDamage(3)
    } else if k == (34int, 'a', 'e', '1') {
        SpriteId::FactoryHeavyDamage(1)
    } else if k == (34int, 'a', 'e', '2') {
        SpriteId::FactoryHeavyDamage(2)
    } else if k == (34int, 'a', 'e', '3') {
        SpriteId::FactoryHeavyDamage(3)
    } else if k == (13int, '.', ' ', '1') {
        SpriteId::Number(1)
    } else if k == (13int, '.', ' ', '2') {
        SpriteId::Number(2)
    } else if k == (13int, '.', ' ', '3') {
        SpriteId::Number(3)
    } else if k == (13int, '.', ' ', '4') {
        SpriteId::Number(4)
    } else if k == (13int, '.', ' ', '5') {
        SpriteId::Number(5)
    } else if k == (23int, 'r', 'n', '1') {
        SpriteId::ProductionLayer(1)
    } else if k == (23int, 'r', 'n', '2') {
        SpriteId::ProductionLayer(2)
    } else if k == (23int, 'r', 'n', '3') {
        SpriteId::ProductionLayer(3)
    } else if k == (24int, 'e', 'r', 'e') {
        SpriteId::Debris(1)
    } else if k == (22int, 'e', 'd', 'd') {
        SpriteId::Debris(2)
    } else if k == (24int, 'e', 'a', 'l') {
        SpriteId::Debris(3)
    } else if k == (17int, 'i', ' ', '1') {
        SpriteId::Fish(1)
    } else if k == (17int, 'i', ' ', '2') {
        SpriteId::Fish(2)
    } else if k == (17int, 'i', ' ', '3') {
        SpriteId::Fish(3)
    } else if k == (17int, 'i', ' ', '4') {
        SpriteId::Fish(4)
    } else if k == (17int, 'i', ' ', '5') {
        SpriteId::Fish(5)
    } else if k == (17int, 'i', ' ', '6') {
        SpriteId::Fish(6)
    } else if k == (17int, 'i', ' ', '7') {
        SpriteId::Fish(7)
    } else {
        SpriteId::Fish(8)
    }
}

/// The key of each image's file, as [`path_key`] reads it.
pub open spec fn file_key(id: SpriteId) -> (int, char, char, char) {
    match id {
        SpriteId::Loading => (19int, 'o', 'n', 'g'),
        SpriteId::Title => (17int, 'i', ' ', 'e'),
        SpriteId::Credits => (19int, 'r', 'n', 's'),
        SpriteId::AButton => (20int, '_', 'p', 'n'),
        SpriteId::Needle => (18int, 'e', 'g', 'e'),
        SpriteId::FighterPreview => (27int, 'i', 'u', 'e'),
        SpriteId::BomberPreview => (26int, 'o', 't', 'e'),
        SpriteId::FrigatePreview => (27int, 'r', 'u', 'e'),
        SpriteId::UpgradePreview => (27int, 'p', 'u', 'e'),
        SpriteId::HealthFull => (23int, 'e', 'l', 'l'),
        SpriteId::HealthSome => (23int, 'e', 'm', 'e'),
        SpriteId::HealthNone => (23int, 'e', 'n', 'e'),
        SpriteId::Laser => (17int, 'a', ' ', 'r'),
        SpriteId::Bomb => (16int, 'o', ' ', 'b'),
        SpriteId::Missile => (19int, 'i', 'n', 'e'),
        SpriteId::Bubble => (18int, 'u', 'g', 'e'),
        SpriteId::BigBubble => (22int, 'i', 'e', 'e'),
        SpriteId::Explosion => (21int, 'x', '.', 'n'),
        SpriteId::Spark => (17int, 'p', ' ', 'k'),
        SpriteId::FactorySprite => (22int, 'a', '1', '1'),
        SpriteId::Fighter(n) => if n == 1 { (22int, 'i', '1', '1') } else if n == 2 { (22int, 'i', '2', '2') } else if n == 3 { (22int, 'i', '3', '3') } else { (22int, 'i', '4', '4') },
        SpriteId::Bomber(n) => if n == 1 { (21int, 'o', '.', '1') } else if n == 2 { (21int, 'o', '.', '2') } else if n == 3 { (21int, 'o', '.', '3') } else { (21int, 'o', '.', '4') },
        SpriteId::Frigate(n) => if n == 1 { (22int, 'r', '1', '1') } else if n == 2 { (22int, 'r', '2', '2') } else if n == 3 { (22int, 'r', '3', '3') } else { (22int, 'r', '4', '4') },
        SpriteId::Factory(n) => if n == 1 { (22int, 'a', '1', '1') } else if n == 2 { (22int, 'a', '2', '2') } else if n == 3 { (22int, 'a', '3', '3') } else { (22int, 'a', '4', '4') },
        SpriteId::FactoryLightDamage(n) => if n == 1 { (34int, 'a', 'i', '1') } else if n == 2 { (34int, 'a', 'i', '2') } else { (34int, 'a', 'i', '3') },
        SpriteId::FactoryHeavyDamage(n) => if n == 1 { (34int, 'a', 'e', '1') } else if n == 2 { (34int, 'a', 'e', '2') } else { (34int, 'a', 'e', '3') },
        SpriteId::Number(n) => if n == 1 { (13int, '.', ' ', '1') } else if n == 2 { (13int, '.', ' ', '2') } else if n == 3 { (13int, '.', ' ', '3') } else if n == 4 { (13int, '.', ' ', '4') } else { (13int, '.', ' ', '5') },
        SpriteId::ProductionLayer(n) => if n == 1 { (23int, 'r', 'n', '1') } else if n == 2 { (23int, 'r', 'n', '2') } else { (23int, 'r', 'n', '3') },
        SpriteId::Debris(n) => if n == 1 { (24int, 'e', 'r', 'e') } else if n == 2 { (22int, 'e', 'd', 'd') } else { (24int, 'e', 'a', 'l') },
        SpriteId::Fish(n) => if n == 1 { (17int, 'i', ' ', '1') } else if n == 2 { (17int, 'i', ' ', '2') } else if n == 3 { (17int, 'i', ' ', '3') } else if n == 4 { (17int, 'i', ' ', '4') } else if n == 5 { (17int, 'i', ' ', '5') } else if n == 6 { (17int, 'i', ' ', '6') } else if n == 7 { (17int, 'i', ' ', '7') } else { (17int, 'i', ' ', '8') },
    }
}

/// Each image's file has the key [`file_key`] gives it.
proof fn lemma_file_key(id: SpriteId)
    requires
        is_sprite(id),
    ensures
        path_key(sprite_path(id)) == file_key(id),
        id != SpriteId::FactorySprite ==> sprite_of_key(file_key(id)) == id,
{
    lemma_stems_differ();
    match id {
        SpriteId::Loading => {
            reveal_strlit("sprites/loading.png");
            assert("sprites/loading.png"@.len() == 19);
            assert("sprites/loading.png"@[9] == 'o');
            assert("sprites/loading.png"@[17] == 'n');
            assert("sprites/loading.png"@[14] == 'g');
        },
        SpriteId::Title => {
            reveal_strlit("sprites/title.png");
            assert("sprites/title.png"@.len() == 17);
            assert("sprites/title.png"@[9] == 'i');
            assert("sprites/title.png"@[12] == 'e');
        },
        SpriteId::Credits => {
            reveal_strlit("sprites/credits.png");
            assert("sprites/credits.png"@.len() == 19);
            assert("sprites/credits.png"@[9] == 'r');
            assert("sprites/credits.png"@[17] == 'n');
            assert("sprites/credits.png"@[14] == 's');
        },
        SpriteId::AButton => {
            reveal_strlit("sprites/a_button.png");
            assert("sprites/a_button.png"@.len() == 20);
            assert("sprites/a_button.png"@[9] == '_');
            assert("sprites/a_button.png"@[17] == 'p');
            assert("sprites/a_button.png"@[15] == 'n');
        },
        SpriteId::Needle => {
            reveal_strlit("sprites/needle.png");
            assert("sprites/needle.png"@.len() == 18);
            assert("sprites/needle.png"@[9] == 'e');
            assert("sprites/needle.png"@[17] == 'g');
            assert("sprites/needle.png"@[13] == 'e');
        },
        SpriteId::FighterPreview => {
            reveal_strlit("sprites/fighter_outline.png");
            assert("sprites/fighter_outline.png"@.len() == 27);
            assert("sprites/fighter_outline.png"@[9] == 'i');
            assert("sprites/fighter_outline.png"@[17] == 'u');
            assert("sprites/fighter_outline.png"@[22] == 'e');
        },
        SpriteId::BomberPreview => {
            reveal_strlit("sprites/bomber_outline.png");
            assert("sprites/bomber_outline.png"@.len() == 26);
            assert("sprites/bomber_outline.png"@[9] == 'o');
            assert("sprites/bomber_outline.png"@[17] == 't');
            assert("sprites/bomber_outline.png"@[21] == 'e');
        },
        SpriteId::FrigatePreview => {
            reveal_strlit("sprites/frigate_outline.png");
            assert("sprites/frigate_outline.png"@.len() == 27);
            assert("sprites/frigate_outline.png"@[9] == 'r');
            assert("sprites/frigate_outline.png"@[17] == 'u');
            assert("sprites/frigate_outline.png"@[22] == 'e');
        },
        SpriteId::UpgradePreview => {
            reveal_strlit("sprites/upgrade_outline.png");
            assert("sprites/upgrade_outline.png"@.len() == 27);
            assert("sprites/upgrade_outline.png"@[9] == 'p');
            assert("sprites/upgrade_outline.png"@[17] == 'u');
            assert("sprites/upgrade_outline.png"@[22] == 'e');
        },
        SpriteId::HealthFull => {
            reveal_strlit("sprites/health_full.png");
            assert("sprites/health_full.png"@.len() == 23);
            assert("sprites/health_full.png"@[9] == 'e');
            assert("sprites/health_full.png"@[17] == 'l');
            assert("sprites/health_full.png"@[18] == 'l');
        },
        SpriteId::HealthSome => {
            reveal_strlit("sprites/health_some.png");
            assert("sprites/health_some.png"@.len() == 23);
            assert("sprites/health_some.png"@[9] == 'e');
            assert("sprites/health_some.png"@[17] == 'm');
            assert("sprites/health_some.png"@[18] == 'e');
        },
        SpriteId::HealthNone => {
            reveal_strlit("sprites/health_none.png");
            assert("sprites/health_none.png"@.len() == 23);
            assert("sprites/health_none.png"@[9] == 'e');
            assert("sprites/health_none.png"@[17] == 'n');
            assert("sprites/health_none.png"@[18] == 'e');
        },
        SpriteId::Laser => {
            reveal_strlit("sprites/laser.png");
            assert("sprites/laser.png"@.len() == 17);
            assert("sprites/laser.png"@[9] == 'a');
            assert("sprites/laser.png"@[12] == 'r');
        },
        SpriteId::Bomb => {
            reveal_strlit("sprites/bomb.png");
            assert("sprites/bomb.png"@.len() == 16);
            assert("sprites/bomb.png"@[9] == 'o');
            assert("sprites/bomb.png"@[11] == 'b');
        },
        SpriteId::Missile => {
            reveal_strlit("sprites/missile.png");
            assert("sprites/missile.png"@.len() == 19);
            assert("sprites/missile.png"@[9] == 'i');
            assert("sprites/missile.png"@[17] == 'n');
            assert("sprites/missile.png"@[14] == 'e');
        },
        SpriteId::Bubble => {
            reveal_strlit("sprites/bubble.png");
            assert("sprites/bubble.png"@.len() == 18);
            assert("sprites/bubble.png"@[9] == 'u');
            assert("sprites/bubble.png"@[17] == 'g');
            assert("sprites/bubble.png"@[13] == 'e');
        },
        SpriteId::BigBubble => {
            reveal_strlit("sprites/big_bubble.png");
            assert("sprites/big_bubble.png"@.len() == 22);
            assert("sprites/big_bubble.png"@[9] == 'i');
            assert("sprites/big_bubble.png"@[17] == 'e');
            assert("sprites/big_bubble.png"@[17] == 'e');
        },
        SpriteId::Explosion => {
            reveal_strlit("sprites/explosion.png");
            assert("sprites/explosion.png"@.len() == 21);
            assert("sprites/explosion.png"@[9] == 'x');
            assert("sprites/explosion.png"@[17] == '.');
            assert("sprites/explosion.png"@[16] == 'n');
        },
        SpriteId::Spark => {
            reveal_strlit("sprites/spark.png");
            assert("sprites/spark.png"@.len() == 17);
            assert("sprites/spark.png"@[9] == 'p');
            assert("sprites/spark.png"@[12] == 'k');
        },
        SpriteId::FactorySprite => {
            reveal_strlit("sprites/factory_p1.png");
            assert("sprites/factory_p1.png"@.len() == 22);
            assert("sprites/factory_p1.png"@[9] == 'a');
            assert("sprites/factory_p1.png"@[17] == '1');
            assert("sprites/factory_p1.png"@[17] == '1');
        },
        SpriteId::Fighter(n) => {
            if n == 1 {
                reveal_strlit("sprites/fighter_p1.png");
                assert("sprites/fighter_p1.png"@.len() == 22);
                assert("sprites/fighter_p1.png"@[9] == 'i');
                assert("sprites/fighter_p1.png"@[17] == '1');
                assert("sprites/fighter_p1.png"@[17] == '1');
            }
            if n == 2 {
                reveal_strlit("sprites/fighter_p2.png");
                assert("sprites/fighter_p2.png"@.len() == 22);
                assert("sprites/fighter_p2.png"@[9] == 'i');
                assert("sprites/fighter_p2.png"@[17] == '2');
                assert("sprites/fighter_p2.png"@[17] == '2');
            }
            if n == 3 {
                reveal_strlit("sprites/fighter_p3.png");
                assert("sprites/fighter_p3.png"@.len() == 22);
                assert("sprites/fighter_p3.png"@[9] == 'i');
                assert("sprites/fighter_p3.png"@[17] == '3');
                assert("sprites/fighter_p3.png"@[17] == '3');
            }
            if n == 4 {
                reveal_strlit("sprites/fighter_p4.png");
                assert("sprites/fighter_p4.png"@.len() == 22);
                assert("sprites/fighter_p4.png"@[9] == 'i');
                assert("sprites/fighter_p4.png"@[17] == '4');
                assert("sprites/fighter_p4.png"@[17] == '4');
            }
        },
        SpriteId::Bomber(n) => {
            if n == 1 {
                reveal_strlit("sprites/bomber_p1.png");
                assert("sprites/bomber_p1.png"@.len() == 21);
                assert("sprites/bomber_p1.png"@[9] == 'o');
                assert("sprites/bomber_p1.png"@[17] == '.');
                assert("sprites/bomber_p1.png"@[16] == '1');
            }
            if n == 2 {
                reveal_strlit("sprites/bomber_p2.png");
                assert("sprites/bomber_p2.png"@.len() == 21);
                assert("sprites/bomber_p2.png"@[9] == 'o');
                assert("sprites/bomber_p2.png"@[17] == '.');
                assert("sprites/bomber_p2.png"@[16] == '2');
            }
            if n == 3 {
                reveal_strlit("sprites/bomber_p3.png");
                assert("sprites/bomber_p3.png"@.len() == 21);
                assert("sprites/bomber_p3.png"@[9] == 'o');
                assert("sprites/bomber_p3.png"@[17] == '.');
                assert("sprites/bomber_p3.png"@[16] == '3');
            }
            if n == 4 {
                reveal_strlit("sprites/bomber_p4.png");
                assert("sprites/bomber_p4.png"@.len() == 21);
                assert("sprites/bomber_p4.png"@[9] == 'o');
                assert("sprites/bomber_p4.png"@[17] == '.');
                assert("sprites/bomber_p4.png"@[16] == '4');
            }
        },
        SpriteId::Frigate(n) => {
            if n == 1 {
                reveal_strlit("sprites/frigate_p1.png");
                assert("sprites/frigate_p1.png"@.len() == 22);
                assert("sprites/frigate_p1.png"@[9] == 'r');
                assert("sprites/frigate_p1.png"@[17] == '1');
                assert("sprites/frigate_p1.png"@[17] == '1');
            }
            if n == 2 {
                reveal_strlit("sprites/frigate_p2.png");
                assert("sprites/frigate_p2.png"@.len() == 22);
                assert("sprites/frigate_p2.png"@[9] == 'r');
                assert("sprites/frigate_p2.png"@[17] == '2');
                assert("sprites/frigate_p2.png"@[17] == '2');
            }
            if n == 3 {
                reveal_strlit("sprites/frigate_p3.png");
                assert("sprites/frigate_p3.png"@.len() == 22);
                assert("sprites/frigate_p3.png"@[9] == 'r');
                assert("sprites/frigate_p3.png"@[17] == '3');
                assert("sprites/frigate_p3.png"@[17] == '3');
            }
            if n == 4 {
                reveal_strlit("sprites/frigate_p4.png");
                assert("sprites/frigate_p4.png"@.len() == 22);
                assert("sprites/frigate_p4.png"@[9] == 'r');
                assert("sprites/frigate_p4.png"@[17] == '4');
                assert("sprites/frigate_p4.png"@[17] == '4');
            }
        },
        SpriteId::Factory(n) => {
            if n == 1 {
                reveal_strlit("sprites/factory_p1.png");
                assert("sprites/factory_p1.png"@.len() == 22);
                assert("sprites/factory_p1.png"@[9] == 'a');
                assert("sprites/factory_p1.png"@[17] == '1');
                assert("sprites/factory_p1.png"@[17] == '1');
            }
            if n == 2 {
                reveal_strlit("sprites/factory_p2.png");
                assert("sprites/factory_p2.png"@.len() == 22);
                assert("sprites/factory_p2.png"@[9] == 'a');
                assert("sprites/factory_p2.png"@[17] == '2');
                assert("sprites/factory_p2.png"@[17] == '2');
            }
            if n == 3 {
                reveal_strlit("sprites/factory_p3.png");
                assert("sprites/factory_p3.png"@.len() == 22);
                assert("sprites/factory_p3.png"@[9] == 'a');
                assert("sprites/factory_p3.png"@[17] == '3');
                assert("sprites/factory_p3.png"@[17] == '3');
            }
            if n == 4 {
                reveal_strlit("sprites/factory_p4.png");
                assert("sprites/factory_p4.png"@.len() == 22);
                assert("sprites/factory_p4.png"@[9] == 'a');
                assert("sprites/factory_p4.png"@[17] == '4');
                assert("sprites/factory_p4.png"@[17] == '4');
            }
        },
        SpriteId::FactoryLightDamage(n) => {
            if n == 1 {
                reveal_strlit("sprites/factory_light_damage_1.png");
                assert("sprites/factory_light_damage_1.png"@.len() == 34);
                assert("sprites/factory_light_damage_1.png"@[9] == 'a');
                assert("sprites/factory_light_damage_1.png"@[17] == 'i');
                assert("sprites/factory_light_damage_1.png"@[29] == '1');
            }
            if n == 2 {
                reveal_strlit("sprites/factory_light_damage_2.png");
                assert("sprites/factory_light_damage_2.png"@.len() == 34);
                assert("sprites/factory_light_damage_2.png"@[9] == 'a');
                assert("sprites/factory_light_damage_2.png"@[17] == 'i');
                assert("sprites/factory_light_damage_2.png"@[29] == '2');
            }
            if n == 3 {
                reveal_strlit("sprites/factory_light_damage_3.png");
                assert("sprites/factory_light_damage_3.png"@.len() == 34);
                assert("sprites/factory_light_damage_3.png"@[9] == 'a');
                assert("sprites/factory_light_damage_3.png"@[17] == 'i');
                assert("sprites/factory_light_damage_3.png"@[29] == '3');
            }
        },
        SpriteId::FactoryHeavyDamage(n) => {
            if n == 1 {
                reveal_strlit("sprites/factory_heavy_damage_1.png");
                assert("sprites/factory_heavy_damage_1.png"@.len() == 34);
                assert("sprites/factory_heavy_damage_1.png"@[9] == 'a');
                assert("sprites/factory_heavy_damage_1.png"@[17] == 'e');
                assert("sprites/factory_heavy_damage_1.png"@[29] == '1');
            }
            if n == 2 {
                reveal_strlit("sprites/factory_heavy_damage_2.png");
                assert("sprites/factory_heavy_damage_2.png"@.len() == 34);
                assert("sprites/factory_heavy_damage_2.png"@[9] == 'a');
                assert("sprites/factory_heavy_damage_2.png"@[17] == 'e');
                assert("sprites/factory_heavy_damage_2.png"@[29] == '2');
            }
            if n == 3 {
                reveal_strlit("sprites/factory_heavy_damage_3.png");
                assert("sprites/factory_heavy_damage_3.png"@.len() == 34);
                assert("sprites/factory_heavy_damage_3.png"@[9] == 'a');
                assert("sprites/factory_heavy_damage_3.png"@[17] == 'e');
                assert("sprites/factory_heavy_damage_3.png"@[29] == '3');
            }
        },
        SpriteId::Number(n) => {
            if n == 1 {
                reveal_strlit("sprites/1.png");
                assert("sprites/1.png"@.len() == 13);
                assert("sprites/1.png"@[9] == '.');
                assert("sprites/1.png"@[8] == '1');
            }
            if n == 2 {
                reveal_strlit("sprites/2.png");
                assert("sprites/2.png"@.len() == 13);
                assert("sprites/2.png"@[9] == '.');
                assert("sprites/2.png"@[8] == '2');
            }
            if n == 3 {
                reveal_strlit("sprites/3.png");
                assert("sprites/3.png"@.len() == 13);
                assert("sprites/3.png"@[9] == '.');
                assert("sprites/3.png"@[8] == '3');
            }
            if n == 4 {
                reveal_strlit("sprites/4.png");
                assert("sprites/4.png"@.len() == 13);
                assert("sprites/4.png"@[9] == '.');
                assert("sprites/4.png"@[8] == '4');
            }
            if n == 5 {
                reveal_strlit("sprites/5.png");
                assert("sprites/5.png"@.len() == 13);
                assert("sprites/5.png"@[9] == '.');
                assert("sprites/5.png"@[8] == '5');
            }
        },
        SpriteId::ProductionLayer(n) => {
            if n == 1 {
                reveal_strlit("sprites/production1.png");
                assert("sprites/production1.png"@.len() == 23);
                assert("sprites/production1.png"@[9] == 'r');
                assert("sprites/production1.png"@[17] == 'n');
                assert("sprites/production1.png"@[18] == '1');
            }
            if n == 2 {
                reveal_strlit("sprites/production2.png");
                assert("sprites/production2.png"@.len() == 23);
                assert("sprites/production2.png"@[9] == 'r');
                assert("sprites/production2.png"@[17] == 'n');
                assert("sprites/production2.png"@[18] == '2');
            }
            if n == 3 {
                reveal_strlit("sprites/production3.png");
                assert("sprites/production3.png"@.len() == 23);
                assert("sprites/production3.png"@[9] == 'r');
                assert("sprites/production3.png"@[17] == 'n');
                assert("sprites/production3.png"@[18] == '3');
            }
        },
        SpriteId::Debris(n) => {
            if n == 1 {
                reveal_strlit("sprites/debris_large.png");
                assert("sprites/debris_large.png"@.len() == 24);
                assert("sprites/debris_large.png"@[9] == 'e');
                assert("sprites/debris_large.png"@[17] == 'r');
                assert("sprites/debris_large.png"@[19] == 'e');
            }
            if n == 2 {
                reveal_strlit("sprites/debris_med.png");
                assert("sprites/debris_med.png"@.len() == 22);
                assert("sprites/debris_med.png"@[9] == 'e');
                assert("sprites/debris_med.png"@[17] == 'd');
                assert("sprites/debris_med.png"@[17] == 'd');
            }
            if n == 3 {
                reveal_strlit("sprites/debris_small.png");
                assert("sprites/debris_small.png"@.len() == 24);
                assert("sprites/debris_small.png"@[9] == 'e');
                assert("sprites/debris_small.png"@[17] == 'a');
                assert("sprites/debris_small.png"@[19] == 'l');
            }
        },
        SpriteId::Fish(n) => {
            if n == 1 {
                reveal_strlit("sprites/fish1.png");
                assert("sprites/fish1.png"@.len() == 17);
                assert("sprites/fish1.png"@[9] == 'i');
                assert("sprites/fish1.png"@[12] == '1');
            }
            if n == 2 {
                reveal_strlit("sprites/fish2.png");
                assert("sprites/fish2.png"@.len() == 17);
                assert("sprites/fish2.png"@[9] == 'i');
                assert("sprites/fish2.png"@[12] == '2');
            }
            if n == 3 {
                reveal_strlit("sprites/fish3.png");
                assert("sprites/fish3.png"@.len() == 17);
                assert("sprites/fish3.png"@[9] == 'i');
                assert("sprites/fish3.png"@[12] == '3');
            }
            if n == 4 {
                reveal_strlit("sprites/fish4.png");
                assert("sprites/fish4.png"@.len() == 17);
                assert("sprites/fish4.png"@[9] == 'i');
                assert("sprites/fish4.png"@[12] == '4');
            }
            if n == 5 {
                reveal_strlit("sprites/fish5.png");
                assert("sprites/fish5.png"@.len() == 17);
                assert("sprites/fish5.png"@[9] == 'i');
                assert("sprites/fish5.png"@[12] == '5');
            }
            if n == 6 {
                reveal_strlit("sprites/fish6.png");
                assert("sprites/fish6.png"@.len() == 17);
                assert("sprites/fish6.png"@[9] == 'i');
                assert("sprites/fish6.png"@[12] == '6');
            }
            if n == 7 {
                reveal_strlit("sprites/fish7.png");
                assert("sprites/fish7.png"@.len() == 17);
                assert("sprites/fish7.png"@[9] == 'i');
                assert("sprites/fish7.png"@[12] == '7');
            }
            if n == 8 {
                reveal_strlit("sprites/fish8.png");
                assert("sprites/fish8.png"@.len() == 17);
                assert("sprites/fish8.png"@[9] == 'i');
                assert("sprites/fish8.png"@[12] == '8');
            }
        },
    }
}
/// The four per-player stems are different words.
proof fn lemma_stems_differ()
    ensures
        "fighter"@ != "bomber"@,
        "fighter"@ != "frigate"@,
        "fighter"@ != "factory"@,
        "bomber"@ != "frigate"@,
        "bomber"@ != "factory"@,
        "frigate"@ != "factory"@,
{
    reveal_strlit("fighter");
    reveal_strlit("bomber");
    reveal_strlit("frigate");
    reveal_strlit("factory");
    assert("fighter"@.len() == 7);
    assert("bomber"@.len() == 6);
    assert("frigate"@.len() == 7);
    assert("factory"@.len() == 7);
    assert("fighter"@[1] == 'i');
    assert("frigate"@[1] == 'r');
    assert("factory"@[1] == 'a');
}

/// Distinct images are loaded from distinct files -- all but the neutral
/// factory art, which is deliberately player 1's factory file.
pub proof fn lemma_distinct_sprites_have_distinct_files(a: SpriteId, b: SpriteId)
    requires
        is_sprite(a),
        is_sprite(b),
        a != b,
        a != SpriteId::FactorySprite,
        b != SpriteId::FactorySprite,
    ensures
        sprite_path(a) != sprite_path(b),
        sprite_path(SpriteId::FactorySprite) == sprite_path(SpriteId::Factory(1)),
{
    lemma_file_key(a);
    lemma_file_key(b);
    assert(sprite_of_key(file_key(a)) == a);
    assert(sprite_of_key(file_key(b)) == b);
}

} // verus!
