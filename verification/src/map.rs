//! The level as the level file describes it, and what is put into the world
//! for each layer of it.

use vstd::prelude::*;
use crate::fields::{FieldBag, FieldData, FieldMap, FieldValue};
use crate::indexer::IndexingError;
use crate::tags::WorldType;
use crate::text::str_eq;
use crate::tileset::{
    spec_tile_world_type, spec_tileset_texts, tileset_texts, CatalogData, TileCatalog,
    TilesetData, TilesetRecord,
};

verus! {

/// The layer type whose placements are tiles.
pub const TILES_LAYER: &'static str = "Tiles";

/// The layer type whose placements are entities.
pub const ENTITIES_LAYER: &'static str = "Entities";

/// A point of the world, in whole world units.
#[derive(Clone, Copy, Debug, PartialEq, Eq, Structural)]
pub struct WorldPoint {
    pub x: i64,
    pub y: i64,
    pub z: i64,
}

impl DeepView for WorldPoint {
    type V = WorldPoint;

    open spec fn deep_view(&self) -> WorldPoint {
        *self
    }
}

/// A width and a height, in whole units.
#[derive(Clone, Copy, Debug, PartialEq, Eq, Structural)]
pub struct Extent {
    pub width: u32,
    pub height: u32,
}

/// Where the world has the pixel `(x, y)` of a layer at depth `z`: the level
/// file counts `y` downwards from the top, the world upwards.
pub open spec fn spec_convert_to_world(x: i32, y: i32, z: i32) -> WorldPoint {
    WorldPoint { x: x as i64, y: (-y) as i64, z: z as i64 }
}

/// The world position of a layer's pixel `(x, y)` at depth `z`. The size of
/// the grid plays no part in it.
pub fn convert_to_world(grid_size: i32, x: i32, y: i32, z: i32) -> (p: WorldPoint)
    ensures
        p == spec_convert_to_world(x, y, z),
        p.x == x,
        p.y == -y,
        p.z == z,
{
    WorldPoint { x: x as i64, y: -(y as i64), z: z as i64 }
}

/// What a tile of the map is, once placed in the world.
#[derive(Clone, Copy, Debug, PartialEq, Eq, Structural)]
pub struct MapTile {
    /// Width of the tile's layer, in cells.
    pub cells_wide: i32,
    /// Height of the tile's layer, in cells.
    pub cells_high: i32,
    /// Edge of one cell of the layer, in pixels.
    pub grid_size: i32,
    pub depth: i32,
    pub world_type: WorldType,
}

/// An entity as the level file places it: the name of its type and its
/// fields, not yet read as any type.
#[derive(Debug)]
pub struct MapEntity {
    pub name: String,
    pub fields: FieldBag,
}

/// What a `MapEntity` holds, as a mathematical value.
pub struct MapEntityData {
    pub name: Seq<char>,
    pub fields: FieldMap,
}

impl View for MapEntity {
    type V = MapEntityData;

    open spec fn view(&self) -> MapEntityData {
        MapEntityData { name: self.name@, fields: self.fields@ }
    }
}

impl DeepView for MapEntity {
    type V = MapEntityData;

    open spec fn deep_view(&self) -> MapEntityData {
        self@
    }
}

impl Clone for MapEntity {
    fn clone(&self) -> (copy: MapEntity)
        ensures
            copy@ == self@,
    {
        MapEntity { name: self.name.clone(), fields: self.fields.clone() }
    }
}

/// One tile as a layer of the level file places it.
#[derive(Clone, Copy, Debug, PartialEq, Eq, Structural)]
pub struct TileRecord {
    /// Pixel position in the layer, from its left edge.
    pub px_x: i32,
    /// Pixel position in the layer, down from its top edge.
    pub px_y: i32,
    /// The tile's id in its tileset.
    pub t: i64,
}

impl DeepView for TileRecord {
    type V = TileRecord;

    open spec fn deep_view(&self) -> TileRecord {
        *self
    }
}

/// One entity as a layer of the level file places it.
#[derive(Debug)]
pub struct EntityRecord {
    /// The name of the entity's type.
    pub identifier: String,
    pub px_x: i32,
    pub px_y: i32,
    /// The tileset of the tile that pictures the entity, if it has one.
    pub tileset_uid: Option<i64>,
    /// The entity's fields, by name, in the order written.
    pub field_instances: Vec<(String, Option<FieldValue>)>,
}

/// What an `EntityRecord` holds, as a mathematical value.
pub struct EntityRecordData {
    pub identifier: Seq<char>,
    pub px_x: i32,
    pub px_y: i32,
    pub tileset_uid: Option<i64>,
    pub field_instances: Seq<(Seq<char>, Option<FieldData>)>,
}

impl DeepView for EntityRecord {
    type V = EntityRecordData;

    open spec fn deep_view(&self) -> EntityRecordData {
        EntityRecordData {
            identifier: self.identifier@,
            px_x: self.px_x,
            px_y: self.px_y,
            tileset_uid: self.tileset_uid,
            field_instances: self.field_instances.deep_view(),
        }
    }
}

/// One layer of a level.
#[derive(Debug)]
pub struct LayerRecord {
    /// `"Tiles"`, `"Entities"`, or a type that is passed over.
    pub layer_instance_type: String,
    /// Width in cells.
    pub c_wid: i32,
    /// Height in cells.
    pub c_hei: i32,
    /// Edge of one cell, in pixels.
    pub grid_size: i32,
    pub tileset_def_uid: Option<i32>,
    pub grid_tiles: Vec<TileRecord>,
    pub entity_instances: Vec<EntityRecord>,
}

/// What a `LayerRecord` holds, as a mathematical value.
pub struct LayerData {
    pub layer_instance_type: Seq<char>,
    pub c_wid: i32,
    pub c_hei: i32,
    pub grid_size: i32,
    pub tileset_def_uid: Option<i32>,
    pub grid_tiles: Seq<TileRecord>,
    pub entity_instances: Seq<EntityRecordData>,
}

impl DeepView for LayerRecord {
    type V = LayerData;

    open spec fn deep_view(&self) -> LayerData {
        LayerData {
            layer_instance_type: self.layer_instance_type@,
            c_wid: self.c_wid,
            c_hei: self.c_hei,
            grid_size: self.grid_size,
            tileset_def_uid: self.tileset_def_uid,
            grid_tiles: self.grid_tiles@,
            entity_instances: self.entity_instances.deep_view(),
        }
    }
}

/// A tile to put into the world.
#[derive(Clone, Copy, Debug, PartialEq, Eq, Structural)]
pub struct TileSpawn {
    pub translation: WorldPoint,
    /// The tile's id in its tileset, which picks its picture.
    pub tile_id: i64,
    pub tileset_uid: i32,
    pub tile: MapTile,
}

/// An entity to put into the world, not yet read as any type.
#[derive(Debug)]
pub struct EntitySpawn {
    pub translation: WorldPoint,
    /// The tileset of the tile that pictures the entity, if it has one.
    pub tileset_uid: Option<i64>,
    pub entity: MapEntity,
}

/// What an `EntitySpawn` holds, as a mathematical value.
pub struct EntitySpawnData {
    pub translation: WorldPoint,
    pub tileset_uid: Option<i64>,
    pub entity: MapEntityData,
}

/// One thing to put into the world for a level.
#[derive(Debug)]
pub enum MapSpawn {
    Tile(TileSpawn),
    Entity(EntitySpawn),
}

/// What a `MapSpawn` holds, as a mathematical value.
pub enum MapSpawnData {
    Tile(TileSpawn),
    Entity(EntitySpawnData),
}

impl DeepView for MapSpawn {
    type V = MapSpawnData;

    open spec fn deep_view(&self) -> MapSpawnData {
        match self {
            MapSpawn::Tile(t) => MapSpawnData::Tile(*t),
            MapSpawn::Entity(e) => MapSpawnData::Entity(
                EntitySpawnData {
                    translation: e.translation,
                    tileset_uid: e.tileset_uid,
                    entity: e.entity@,
                },
            ),
        }
    }
}

/// The most layers a level may have: the depth of each must fit in 32 bits.
pub const MAX_LAYERS: usize = 0x4000_0000;

/// The depth at which the layer at position `z` of its level lies. Layers
/// that come first in the level lie on top.
pub open spec fn spec_layer_depth(z: int) -> int {
    (25 - z) * 2
}

/// The depth at which the layer at position `z` of its level lies.
pub fn layer_depth(z: usize) -> (depth: i32)
    requires
        z < MAX_LAYERS,
    ensures
        depth == spec_layer_depth(z as int),
{
    (25 - z as i32) * 2
}

/// The fields of a bag that the named values were put into in order.
pub open spec fn spec_fields(
    instances: Seq<(Seq<char>, Option<FieldData>)>,
) -> FieldMap
    decreases instances.len(),
{
    if instances.len() == 0 {
        Map::empty()
    } else {
        spec_fields(instances.drop_last()).insert(instances.last().0, instances.last().1)
    }
}

/// What is put into the world for the tile `tile` of `layer`, which lies at
/// position `z` in its level.
pub open spec fn spec_tile_spawn(
    layer: LayerData,
    z: int,
    tile: TileRecord,
    catalog: CatalogData,
) -> TileSpawn {
    let depth = spec_layer_depth(z) as i32;
    let uid = match layer.tileset_def_uid {
        Some(uid) => uid,
        None => -1i32,
    };
    TileSpawn {
        translation: spec_convert_to_world(tile.px_x, tile.px_y, depth),
        tile_id: tile.t,
        tileset_uid: uid,
        tile: MapTile {
            cells_wide: layer.c_wid,
            cells_high: layer.c_hei,
            grid_size: layer.grid_size,
            depth,
            world_type: spec_tile_world_type(catalog, uid, tile.t),
        },
    }
}

/// What is put into the world for the entity `entity` of a layer that lies
/// at position `z` in its level.
pub open spec fn spec_entity_spawn(z: int, entity: EntityRecordData) -> EntitySpawnData {
    EntitySpawnData {
        translation: spec_convert_to_world(entity.px_x, entity.px_y, spec_layer_depth(z) as i32),
        tileset_uid: entity.tileset_uid,
        entity: MapEntityData {
            name: entity.identifier,
            fields: spec_fields(entity.field_instances),
        },
    }
}

/// What a layer holds, by its type.
#[derive(Clone, Copy, Debug, PartialEq, Eq, Structural)]
pub enum LayerKind {
    Tiles,
    Entities,
    /// A layer of a type that is passed over.
    Other,
}

/// The kind of a layer of type `layer_type`.
pub open spec fn spec_layer_kind(layer_type: Seq<char>) -> LayerKind {
    if layer_type == TILES_LAYER@ {
        LayerKind::Tiles
    } else if layer_type == ENTITIES_LAYER@ {
        LayerKind::Entities
    } else {
        LayerKind::Other
    }
}

/// The kind of a layer of type `layer_type`: `"Tiles"` holds tiles,
/// `"Entities"` holds entities, and a layer of any other type is passed
/// over.
pub fn layer_kind(layer_type: &str) -> (kind: LayerKind)
    ensures
        kind == spec_layer_kind(layer_type@),
{
    if str_eq(layer_type, TILES_LAYER) {
        LayerKind::Tiles
    } else if str_eq(layer_type, ENTITIES_LAYER) {
        LayerKind::Entities
    } else {
        LayerKind::Other
    }
}

/// What is put into the world for one layer: its tiles in order, or its
/// entities in order, or nothing for a layer of another type.
pub open spec fn spec_layer_spawns(
    layer: LayerData,
    z: int,
    catalog: CatalogData,
) -> Seq<MapSpawnData> {
    match spec_layer_kind(layer.layer_instance_type) {
        LayerKind::Tiles => Seq::new(
            layer.grid_tiles.len(),
            |i: int| MapSpawnData::Tile(spec_tile_spawn(layer, z, layer.grid_tiles[i], catalog)),
        ),
        LayerKind::Entities => Seq::new(
            layer.entity_instances.len(),
            |i: int| MapSpawnData::Entity(spec_entity_spawn(z, layer.entity_instances[i])),
        ),
        LayerKind::Other => Seq::empty(),
    }
}

/// What is put into the world for a level: layer by layer, the last layer
/// first.
pub open spec fn spec_level_spawns(
    layers: Seq<LayerData>,
    catalog: CatalogData,
) -> Seq<MapSpawnData>
    decreases layers.len(),
{
    if layers.len() == 0 {
        Seq::empty()
    } else {
        spec_layer_spawns(layers.last(), layers.len() - 1, catalog) + spec_level_spawns(
            layers.drop_last(),
            catalog,
        )
    }
}

/// The bag that holds the fields of an entity of the level file.
pub fn collect_fields(instances: &Vec<(String, Option<FieldValue>)>) -> (bag: FieldBag)
    ensures
        bag@ == spec_fields(instances.deep_view()),
{
    let mut bag = FieldBag::new();
    let mut i: usize = 0;
    while i < instances.len()
        invariant
            i <= instances@.len(),
            bag@ == spec_fields(instances.deep_view().take(i as int)),
        decreases instances@.len() - i,
    {
        let name = instances[i].0.clone();
        let value = match &instances[i].1 {
            Some(v) => Some(v.clone()),
            None => None,
        };
        proof {
            let all = instances.deep_view();
            assert(all.take(i + 1).drop_last() =~= all.take(i as int));
            assert(all.take(i + 1).last() == all[i as int]);
        }
        bag.insert(name, value);
        i += 1;
    }
    assert(instances.deep_view().take(i as int) =~= instances.deep_view());
    bag
}

/// What is put into the world for one layer, which lies at position `z` in
/// its level.
pub fn layer_spawns(layer: &LayerRecord, z: usize, catalog: &TileCatalog) -> (spawns: Vec<MapSpawn>)
    requires
        z < MAX_LAYERS,
    ensures
        spawns.deep_view() == spec_layer_spawns(layer.deep_view(), z as int, catalog@),
{
    let mut spawns: Vec<MapSpawn> = Vec::new();
    let depth = layer_depth(z);
    let ghost want = spec_layer_spawns(layer.deep_view(), z as int, catalog@);
    let kind = layer_kind(layer.layer_instance_type.as_str());
    if kind == LayerKind::Tiles {
        let uid = match layer.tileset_def_uid {
            Some(uid) => uid,
            None => -1,
        };
        let mut i: usize = 0;
        while i < layer.grid_tiles.len()
            invariant
                i <= layer.grid_tiles@.len(),
                want.len() == layer.grid_tiles@.len(),
                depth == spec_layer_depth(z as int),
                layer.tileset_def_uid matches Some(u) ==> uid == u,
                layer.tileset_def_uid is None ==> uid == -1,
                forall|k: int|
                    0 <= k < want.len() ==> #[trigger] want[k] == MapSpawnData::Tile(
                        spec_tile_spawn(
                            layer.deep_view(),
                            z as int,
                            layer.grid_tiles@[k],
                            catalog@,
                        ),
                    ),
                spawns.deep_view() =~= want.take(i as int),
            decreases layer.grid_tiles@.len() - i,
        {
            let tile = layer.grid_tiles[i];
            let spawn = TileSpawn {
                translation: convert_to_world(layer.grid_size, tile.px_x, tile.px_y, depth),
                tile_id: tile.t,
                tileset_uid: uid,
                tile: MapTile {
                    cells_wide: layer.c_wid,
                    cells_high: layer.c_hei,
                    grid_size: layer.grid_size,
                    depth,
                    world_type: catalog.tile_world_type(uid, tile.t),
                },
            };
            let ghost before = spawns.deep_view();
            spawns.push(MapSpawn::Tile(spawn));
            proof {
                assert(spawns.deep_view() =~= before.push(MapSpawnData::Tile(spawn)));
                assert(want[i as int] == MapSpawnData::Tile(spawn));
                assert(want.take(i + 1) =~= want.take(i as int).push(want[i as int]));
            }
            i += 1;
        }
        assert(want.take(i as int) =~= want);
    } else if kind == LayerKind::Entities {
        let mut i: usize = 0;
        while i < layer.entity_instances.len()
            invariant
                i <= layer.entity_instances@.len(),
                want.len() == layer.entity_instances@.len(),
                depth == spec_layer_depth(z as int),
                forall|k: int|
                    0 <= k < want.len() ==> #[trigger] want[k] == MapSpawnData::Entity(
                        spec_entity_spawn(z as int, layer.entity_instances@[k].deep_view()),
                    ),
                spawns.deep_view() =~= want.take(i as int),
            decreases layer.entity_instances@.len() - i,
        {
            let record = &layer.entity_instances[i];
            let spawn = EntitySpawn {
                translation: convert_to_world(layer.grid_size, record.px_x, record.px_y, depth),
                tileset_uid: record.tileset_uid,
                entity: MapEntity {
                    name: record.identifier.clone(),
                    fields: collect_fields(&record.field_instances),
                },
            };
            let ghost before = spawns.deep_view();
            let ghost added = MapSpawn::Entity(spawn).deep_view();
            spawns.push(MapSpawn::Entity(spawn));
            proof {
                assert(spawns.deep_view() =~= before.push(added));
                assert(want[i as int] == added);
                assert(want.take(i + 1) =~= want.take(i as int).push(want[i as int]));
            }
            i += 1;
        }
        assert(want.take(i as int) =~= want);
    } else {
        assert(spawns.deep_view() =~= want);
    }
    spawns
}

/// Where the level file is found.
#[derive(Debug)]
pub struct MapLocation(pub String);

/// The level that is loaded, and whether it is still to be put into the
/// world.
#[derive(Debug)]
pub struct LevelMap {
    /// The layers of each level of the level file.
    pub levels: Vec<Vec<LayerRecord>>,
    pub current_level: usize,
    pub reload: bool,
}

/// Puts the current level into the world where that is still to be done:
/// returns what to put there, layer by layer from the last layer to the
/// first, and marks the level as done. Returns nothing for a level that is
/// done already.
pub fn update_map(map: &mut LevelMap, catalog: &TileCatalog) -> (spawns: Vec<MapSpawn>)
    requires
        old(map).reload ==> old(map).current_level < old(map).levels@.len(),
        old(map).reload ==> old(map).levels@[old(map).current_level as int]@.len() <= MAX_LAYERS,
    ensures
        !final(map).reload,
        final(map).levels == old(map).levels,
        final(map).current_level == old(map).current_level,
        spawns.deep_view() == if old(map).reload {
            spec_level_spawns(
                old(map).levels@[old(map).current_level as int].deep_view(),
                catalog@,
            )
        } else {
            Seq::<MapSpawnData>::empty()
        },
{
    let mut spawns: Vec<MapSpawn> = Vec::new();
    if !map.reload {
        assert(spawns.deep_view() =~= Seq::<MapSpawnData>::empty());
        return spawns;
    }
    let layers = &map.levels[map.current_level];
    let ghost all = layers.deep_view();
    let mut z: usize = layers.len();
    assert(all.take(z as int) =~= all);
    while z > 0
        invariant
            z <= layers@.len(),
            layers@.len() <= MAX_LAYERS,
            all == layers.deep_view(),
            spawns.deep_view() + spec_level_spawns(all.take(z as int), catalog@)
                =~= spec_level_spawns(all, catalog@),
        decreases z,
    {
        z -= 1;
        let ghost before = spawns.deep_view();
        let mut more = layer_spawns(&layers[z], z, catalog);
        proof {
            assert(all.take(z + 1).drop_last() =~= all.take(z as int));
            assert(all.take(z + 1).last() == all[z as int]);
            assert(all[z as int] == layers@[z as int].deep_view());
        }
        let ghost added = more.deep_view();
        spawns.append(&mut more);
        assert(spawns.deep_view() =~= before + added);
    }
    map.reload = false;
    spawns
}

/// The catalog of the tilesets' texts, each tileset under its id, or the
/// error of the first tileset that has one.
pub open spec fn spec_init_map(tilesets: Seq<TilesetData>) -> Result<
    CatalogData,
    IndexingError,
>
    decreases tilesets.len(),
{
    if tilesets.len() == 0 {
        Ok(Seq::empty())
    } else {
        match spec_init_map(tilesets.drop_last()) {
            Err(e) => Err(e),
            Ok(catalog) => match spec_tileset_texts(tilesets.last().custom_data) {
                Err(e) => Err(e),
                Ok(texts) => Ok(catalog.push((tilesets.last().uid, texts))),
            },
        }
    }
}

/// An error among the first `n` tilesets is the error of them all.
pub proof fn lemma_init_map_error(tilesets: Seq<TilesetData>, n: int)
    requires
        0 <= n <= tilesets.len(),
        spec_init_map(tilesets.take(n)) is Err,
    ensures
        spec_init_map(tilesets) == spec_init_map(tilesets.take(n)),
    decreases tilesets.len() - n,
{
    if n < tilesets.len() {
        assert(tilesets.take(n + 1).drop_last() =~= tilesets.take(n));
        lemma_init_map_error(tilesets, n + 1);
    } else {
        assert(tilesets.take(n) =~= tilesets);
    }
}

/// Builds the catalog of the texts that the tilesets of a level file attach
/// to their tiles.
pub fn init_map(tilesets: &Vec<TilesetRecord>) -> (r: Result<TileCatalog, IndexingError>)
    ensures
        match r {
            Ok(catalog) => spec_init_map(tilesets.deep_view()) == Ok::<
                CatalogData,
                IndexingError,
            >(catalog@),
            Err(e) => spec_init_map(tilesets.deep_view()) == Err::<
                CatalogData,
                IndexingError,
            >(e),
        },
{
    let mut catalog = TileCatalog::new();
    let mut i: usize = 0;
    let ghost all = tilesets.deep_view();
    while i < tilesets.len()
        invariant
            i <= tilesets@.len(),
            all == tilesets.deep_view(),
            spec_init_map(all.take(i as int)) == Ok::<
                CatalogData,
                IndexingError,
            >(catalog@),
        decreases tilesets@.len() - i,
    {
        proof {
            assert(all.take(i + 1).drop_last() =~= all.take(i as int));
            assert(all.take(i + 1).last() == tilesets@[i as int].deep_view());
        }
        match tileset_texts(&tilesets[i].custom_data) {
            Ok(texts) => {
                let ghost before = catalog@;
                let ghost added = (tilesets@[i as int].uid, texts.deep_view());
                catalog.tilesets.push((tilesets[i].uid, texts));
                assert(catalog@ =~= before.push(added));
            },
            Err(e) => {
                proof {
                    lemma_init_map_error(all, i + 1);
                }
                return Err(e);
            },
        }
        i += 1;
    }
    assert(all.take(i as int) =~= all);
    Ok(catalog)
}

} // verus!
