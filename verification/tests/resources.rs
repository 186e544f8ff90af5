use std::collections::HashMap;

use pax_britannica::resources::{all, SpriteId};
use pax_britannica::scripts::ship::ShipSprites;

#[test]
fn per_player_sprites_are_distinct() {
    assert_ne!(SpriteId::Fighter(1), SpriteId::Fighter(2));
    assert_ne!(SpriteId::Fighter(1), SpriteId::Bomber(1));
}

#[test]
fn distinct_sprites_map_to_distinct_files() {
    // a typo in the path table would silently draw the wrong art, and
    // per-player colours are how you tell whose ship is whose
    let mut seen = HashMap::new();
    for id in all() {
        if id == SpriteId::FactorySprite {
            continue; // deliberately shares player 1's factory art
        }
        if let Some(other) = seen.insert(id.path(), id) {
            panic!("{id:?} and {other:?} both use {}", id.path());
        }
    }
}

#[test]
fn every_sprite_is_listed_once() {
    let ids = all();
    assert_eq!(ids.len(), 61);
    for (i, a) in ids.iter().enumerate() {
        for b in &ids[i + 1..] {
            assert_ne!(a, b);
        }
    }
    for player in 1..=4 {
        assert!(ids.contains(&SpriteId::Factory(player)));
    }
    assert!(ids.contains(&SpriteId::Fish(8)));
    assert!(!ids.contains(&SpriteId::Fish(9)));
}

#[test]
fn per_player_art_follows_the_player_number() {
    assert_eq!(SpriteId::Fighter(1).path(), "sprites/fighter_p1.png");
    assert_eq!(SpriteId::Bomber(3).path(), "sprites/bomber_p3.png");
    assert_eq!(SpriteId::Factory(4).path(), "sprites/factory_p4.png");
    assert_eq!(SpriteId::FactorySprite.path(), "sprites/factory_p1.png");
    assert_eq!(SpriteId::Number(5).path(), "sprites/5.png");
}

#[test]
fn moving_things_are_smoothed() {
    assert!(SpriteId::Needle.smooth());
    assert!(SpriteId::Factory(2).smooth());
    assert!(SpriteId::Fish(3).smooth());
    assert!(!SpriteId::Fighter(2).smooth());
    assert!(!SpriteId::Laser.smooth());
}

#[test]
fn every_ship_wears_its_owners_colours() {
    assert_eq!(ShipSprites::Fighter.for_player(2), SpriteId::Fighter(2));
    assert_eq!(ShipSprites::Bomber.for_player(3), SpriteId::Bomber(3));
    assert_eq!(ShipSprites::Frigate.for_player(4), SpriteId::Frigate(4));
    assert_eq!(ShipSprites::Factory.for_player(1), SpriteId::Factory(1));
}
