//! Level loading, entity classification and per-tick game rules for a small
//! top-down action game, stated as contracts and proved.
//!
//! A level file places tiles and entities in layers. `map` turns a level
//! into what is put into the world, `indexer` reads each placed entity once
//! as one of the types the game knows (`start_location`, `door`,
//! `patrol_path`, `gold`), and the other modules hold the rules of a tick:
//! spawn points, health and damage, enemies, projectiles and movement.
//! Everything works on plain values; the engine around it hands them in and
//! carries out what comes back.

pub mod assoc;
pub mod door;
pub mod enemy;
pub mod fields;
pub mod gold;
pub mod health;
pub mod indexer;
pub mod layers;
pub mod lifetime;
pub mod map;
pub mod map_colliders;
pub mod movement;
pub mod patrol_path;
pub mod player;
pub mod projectile;
pub mod start_location;
pub mod tags;
pub mod text;
pub mod tileset;
