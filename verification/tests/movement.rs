use illusion_of_security::lifetime::apply_lifetime;
use illusion_of_security::layers::Layers;
use illusion_of_security::map::MapTile;
use illusion_of_security::map_colliders::{
    generate_colliders_for_map_tiles, MapCollider, TileRow, WallBody,
};
use illusion_of_security::movement::{
    animate_creature, map_direction_to_sprite, primary_direction, update_last_direction,
    Dominance, Heading, LastMovementDirection, MovementDirection,
};
use illusion_of_security::player::{player_movement, MoveKeys, Push};
use illusion_of_security::tags::WorldType;

fn heading(dominance: Dominance, x_positive: bool, y_positive: bool) -> Heading {
    Heading { dominance, x_positive, y_positive }
}

fn tile(world_type: WorldType) -> MapTile {
    MapTile { cells_wide: 4, cells_high: 4, grid_size: 16, depth: 50, world_type }
}

#[test]
fn sprite_of_each_direction() {
    assert_eq!(map_direction_to_sprite(MovementDirection::Up), 3);
    assert_eq!(map_direction_to_sprite(MovementDirection::Down), 0);
    assert_eq!(map_direction_to_sprite(MovementDirection::Left), 2);
    assert_eq!(map_direction_to_sprite(MovementDirection::Right), 1);
}

#[test]
fn animate_gives_a_sprite_for_each_creature() {
    let dirs = vec![
        LastMovementDirection(MovementDirection::Left),
        LastMovementDirection(MovementDirection::Up),
        LastMovementDirection(MovementDirection::Down),
    ];
    assert_eq!(animate_creature(&dirs), vec![2, 3, 0]);
    assert!(animate_creature(&vec![]).is_empty());
}

#[test]
fn direction_follows_the_longer_axis() {
    let d = MovementDirection::Left;
    assert_eq!(primary_direction(heading(Dominance::Horizontal, true, false), d), MovementDirection::Right);
    assert_eq!(primary_direction(heading(Dominance::Horizontal, false, true), d), MovementDirection::Left);
    assert_eq!(primary_direction(heading(Dominance::Vertical, false, true), d), MovementDirection::Up);
    assert_eq!(primary_direction(heading(Dominance::Vertical, true, false), d), MovementDirection::Down);
    assert_eq!(primary_direction(heading(Dominance::Neither, true, true), d), MovementDirection::Down);
    assert_eq!(primary_direction(heading(Dominance::Balanced, true, true), d), MovementDirection::Left);
    assert_eq!(
        primary_direction(heading(Dominance::Balanced, false, false), MovementDirection::Up),
        MovementDirection::Up
    );
}

#[test]
fn update_turns_creatures_and_tells_which() {
    let mut rows = vec![
        (heading(Dominance::Horizontal, true, false), LastMovementDirection(MovementDirection::Down)),
        (heading(Dominance::Vertical, false, false), LastMovementDirection(MovementDirection::Down)),
        (heading(Dominance::Balanced, true, true), LastMovementDirection(MovementDirection::Up)),
    ];
    let turned = update_last_direction(&mut rows);
    assert_eq!(turned, vec![true, false, false]);
    assert_eq!(rows[0].1, LastMovementDirection(MovementDirection::Right));
    assert_eq!(rows[1].1, LastMovementDirection(MovementDirection::Down));
    assert_eq!(rows[2].1, LastMovementDirection(MovementDirection::Up));
    assert_eq!(rows[0].0, heading(Dominance::Horizontal, true, false));
}

#[test]
fn keys_push_the_player() {
    let none = MoveKeys { w: false, a: false, s: false, d: false };
    assert_eq!(player_movement(none), Push { x: 0, y: 0 });
    assert_eq!(player_movement(MoveKeys { w: true, ..none }), Push { x: 0, y: 1 });
    assert_eq!(player_movement(MoveKeys { a: true, ..none }), Push { x: -1, y: 0 });
    assert_eq!(player_movement(MoveKeys { s: true, ..none }), Push { x: 0, y: -1 });
    assert_eq!(player_movement(MoveKeys { d: true, ..none }), Push { x: 1, y: 0 });
    assert_eq!(player_movement(MoveKeys { w: true, d: true, ..none }), Push { x: 1, y: 1 });
    assert_eq!(player_movement(MoveKeys { w: true, s: true, ..none }), Push { x: 0, y: 0 });
    assert_eq!(
        player_movement(MoveKeys { w: true, a: true, s: true, d: true }),
        Push { x: 0, y: 0 }
    );
    assert_eq!(player_movement(MoveKeys { a: true, s: true, ..none }), Push { x: -1, y: -1 });
}

#[test]
fn expired_entities_are_despawned() {
    let rows = vec![(1, false), (2, true), (3, false), (4, true)];
    assert_eq!(apply_lifetime(&rows), vec![2, 4]);
    assert!(apply_lifetime(&vec![(1, false)]).is_empty());
    assert!(apply_lifetime(&vec![]).is_empty());
}

#[test]
fn walls_get_bodies_and_every_tile_is_marked() {
    let mut rows = vec![
        TileRow { entity: 1, tile: tile(WorldType::Wall), collider: None },
        TileRow { entity: 2, tile: tile(WorldType::Air), collider: None },
        TileRow { entity: 3, tile: tile(WorldType::Wall), collider: Some(MapCollider) },
        TileRow { entity: 4, tile: tile(WorldType::Door), collider: None },
        TileRow { entity: 5, tile: tile(WorldType::Wall), collider: None },
    ];
    let bodies = generate_colliders_for_map_tiles(&mut rows);
    assert_eq!(
        bodies,
        vec![
            WallBody { entity: 1, tile: tile(WorldType::Wall), layers: Layers { groups: 1, masks: 14 } },
            WallBody { entity: 5, tile: tile(WorldType::Wall), layers: Layers { groups: 1, masks: 14 } },
        ]
    );
    for row in rows.iter() {
        assert_eq!(row.collider, Some(MapCollider));
    }
    assert_eq!(rows[1].tile, tile(WorldType::Air));
    assert!(generate_colliders_for_map_tiles(&mut rows).is_empty());
}
