//! The bodies that the walls of the map get, so that things collide with
//! them.

use vstd::prelude::*;
use crate::layers::{spec_wall_layers, wall_layers, Layers};
use crate::map::MapTile;
use crate::tags::WorldType;

verus! {

/// Marks a tile as looked at: whether or not it was given a body, it is
/// not looked at again.
#[derive(Clone, Copy, Debug, PartialEq, Eq, Structural)]
pub struct MapCollider;

/// A tile of the map in the world, and whether it has been looked at.
#[derive(Clone, Copy, Debug, PartialEq, Eq, Structural)]
pub struct TileRow {
    pub entity: u64,
    pub tile: MapTile,
    pub collider: Option<MapCollider>,
}

/// The body that a tile is given.
#[derive(Clone, Copy, Debug, PartialEq, Eq, Structural)]
pub struct WallBody {
    pub entity: u64,
    /// The tile, whose size and depth make the size of the body.
    pub tile: MapTile,
    pub layers: Layers,
}

/// Whether a tile is given a body when it is looked at: it has not been
/// looked at before, and it is a wall.
pub open spec fn needs_body(row: TileRow) -> bool {
    row.collider is None && row.tile.world_type == WorldType::Wall
}

/// The bodies that the tiles are given, in the order of the tiles.
pub open spec fn spec_wall_bodies(rows: Seq<TileRow>) -> Seq<WallBody>
    decreases rows.len(),
{
    if rows.len() == 0 {
        Seq::empty()
    } else {
        let before = spec_wall_bodies(rows.drop_last());
        let row = rows.last();
        if needs_body(row) {
            before.push(
                WallBody {
                    entity: row.entity,
                    tile: row.tile,
                    layers: Layers { groups: 1, masks: 14 },
                },
            )
        } else {
            before
        }
    }
}

/// Looks at each tile that has not been looked at: a wall is given a body
/// that does not move, on the layers of a wall, and every tile is marked as
/// looked at. Returns the bodies, in the order of the tiles.
pub fn generate_colliders_for_map_tiles(rows: &mut Vec<TileRow>) -> (bodies: Vec<WallBody>)
    ensures
        final(rows)@.len() == old(rows)@.len(),
        forall|i: int|
            0 <= i < old(rows)@.len() ==> final(rows)@[i] == (TileRow {
                entity: old(rows)@[i].entity,
                tile: old(rows)@[i].tile,
                collider: Some(MapCollider),
            }),
        bodies@ == spec_wall_bodies(old(rows)@),
        forall|i: int| 0 <= i < bodies@.len() ==> spec_wall_layers(#[trigger] bodies@[i].layers),
{
    let mut bodies: Vec<WallBody> = Vec::new();
    let mut i: usize = 0;
    while i < rows.len()
        invariant
            i <= rows@.len(),
            rows@.len() == old(rows)@.len(),
            forall|j: int|
                0 <= j < i ==> rows@[j] == (TileRow {
                    entity: old(rows)@[j].entity,
                    tile: old(rows)@[j].tile,
                    collider: Some(MapCollider),
                }),
            forall|j: int| i <= j < rows@.len() ==> rows@[j] == old(rows)@[j],
            bodies@ == spec_wall_bodies(old(rows)@.take(i as int)),
            forall|j: int|
                0 <= j < bodies@.len() ==> spec_wall_layers(#[trigger] bodies@[j].layers),
        decreases rows@.len() - i,
    {
        proof {
            assert(old(rows)@.take(i + 1).drop_last() =~= old(rows)@.take(i as int));
        }
        let row = rows[i];
        if row.collider.is_none() {
            match row.tile.world_type {
                WorldType::Wall => {
                    bodies.push(
                        WallBody { entity: row.entity, tile: row.tile, layers: wall_layers() },
                    );
                },
                _ => {},
            }
        }
        rows.set(i, TileRow { entity: row.entity, tile: row.tile, collider: Some(MapCollider) });
        i += 1;
    }
    assert(old(rows)@.take(i as int) =~= old(rows)@);
    bodies
}

} // verus!
