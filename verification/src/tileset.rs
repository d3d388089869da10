//! The tilesets of a level file, and the texts that they attach to their
//! tiles.

use vstd::prelude::*;
use vstd::string::StringExecFns;
use crate::assoc::{find_id, ids_of, last_index_of};
use crate::fields::{FieldBag, FieldData, FieldMap};
use crate::indexer::IndexingError;
use crate::tags::{spec_world_type_from_str, world_type_from_str, WorldType};

verus! {

/// What a catalog holds, as a mathematical value: for each tileset its id
/// and, for each of its tiles that has a text, the tile's id and the text.
pub type CatalogData = Seq<(i32, Seq<(i64, Seq<char>)>)>;

/// The texts that tilesets attach to their tiles: for each tileset, by its
/// id, the text of each tile that has one, by the tile's id. Of two entries
/// with one id the later one counts.
#[derive(Debug)]
pub struct TileCatalog {
    pub tilesets: Vec<(i32, Vec<(i64, String)>)>,
}

/// The text that a catalog holds for tile `tile` of tileset `uid`.
pub open spec fn spec_tile_text(
    tilesets: CatalogData,
    uid: i32,
    tile: i64,
) -> Option<Seq<char>> {
    match last_index_of(ids_of(tilesets), uid) {
        Some(i) => match last_index_of(ids_of(tilesets[i].1), tile) {
            Some(j) => Some(tilesets[i].1[j].1),
            None => None,
        },
        None => None,
    }
}

/// The kind of tile `tile` of tileset `uid`: what its text names, and air
/// where it has no text or the text names no kind.
pub open spec fn spec_tile_world_type(
    tilesets: CatalogData,
    uid: i32,
    tile: i64,
) -> WorldType {
    let text = match spec_tile_text(tilesets, uid, tile) {
        Some(t) => t,
        None => Seq::empty(),
    };
    match spec_world_type_from_str(text) {
        Some(kind) => kind,
        None => WorldType::Air,
    }
}

impl View for TileCatalog {
    type V = CatalogData;

    open spec fn view(&self) -> CatalogData {
        self.tilesets.deep_view()
    }
}

impl TileCatalog {
    /// A catalog with no tileset.
    pub fn new() -> (catalog: TileCatalog)
        ensures
            catalog@ == CatalogData::empty(),
    {
        let catalog = TileCatalog { tilesets: Vec::new() };
        assert(catalog@ =~= CatalogData::empty());
        catalog
    }

    /// The text kept for tile `tile` of tileset `uid`.
    pub fn tile_text(&self, uid: i32, tile: i64) -> (text: Option<&str>)
        ensures
            match text {
                Some(t) => spec_tile_text(self@, uid, tile) == Some(t@),
                None => spec_tile_text(self@, uid, tile) is None,
            },
    {
        assert(ids_of(self@) =~= ids_of(self.tilesets@));
        match find_id(&self.tilesets, uid) {
            Some(i) => {
                let tiles = &self.tilesets[i].1;
                assert(self@[i as int].1 == tiles.deep_view());
                assert(ids_of(self@[i as int].1) =~= ids_of(tiles@));
                match find_id(tiles, tile) {
                    Some(j) => {
                        assert(self@[i as int].1[j as int].1 == tiles@[j as int].1@);
                        Some(tiles[j].1.as_str())
                    },
                    None => None,
                }
            },
            None => None,
        }
    }

    /// The kind of tile `tile` of tileset `uid`.
    pub fn tile_world_type(&self, uid: i32, tile: i64) -> (kind: WorldType)
        ensures
            kind == spec_tile_world_type(self@, uid, tile),
    {
        let text = match self.tile_text(uid, tile) {
            Some(t) => t,
            None => "",
        };
        proof {
            reveal_strlit("");
            assert(""@ =~= Seq::<char>::empty());
        }
        match world_type_from_str(text) {
            Some(kind) => kind,
            None => WorldType::Air,
        }
    }
}

/// The field of a tileset's custom data that holds a tile's id.
pub const TILE_ID_FIELD: &'static str = "tileId";

/// The field of a tileset's custom data that holds a tile's text.
pub const TILE_DATA_FIELD: &'static str = "data";

/// One tileset as the level file defines it.
#[derive(Debug)]
pub struct TilesetRecord {
    pub uid: i32,
    /// One bag for each tile that has a text: the tile's id and the text.
    pub custom_data: Vec<FieldBag>,
}

/// What a `TilesetRecord` holds, as a mathematical value.
pub struct TilesetData {
    pub uid: i32,
    pub custom_data: Seq<FieldMap>,
}

impl DeepView for TilesetRecord {
    type V = TilesetData;

    open spec fn deep_view(&self) -> TilesetData {
        TilesetData { uid: self.uid, custom_data: self.custom_data.deep_view() }
    }
}

/// The tile id and text that one bag of a tileset's custom data holds. A bag
/// without the id or without the text lacks a field; one whose id is no
/// integer of 64 bits, or whose text is no string, is of the wrong shape.
pub open spec fn spec_tile_data_entry(entry: FieldMap) -> Result<
    (i64, Seq<char>),
    IndexingError,
> {
    if !entry.contains_key(TILE_ID_FIELD@) || !entry.contains_key(TILE_DATA_FIELD@) {
        Err(IndexingError::MissingField)
    } else {
        match (entry[TILE_ID_FIELD@], entry[TILE_DATA_FIELD@]) {
            (Some(id), Some(FieldData::Text(text))) => match id.as_i64() {
                Some(tile) => Ok((tile, text)),
                None => Err(IndexingError::WrongShape),
            },
            _ => Err(IndexingError::WrongShape),
        }
    }
}

/// The ids and texts that a tileset's custom data holds, in order, or the
/// error of the first bag that has one.
pub open spec fn spec_tileset_texts(
    entries: Seq<FieldMap>,
) -> Result<Seq<(i64, Seq<char>)>, IndexingError>
    decreases entries.len(),
{
    if entries.len() == 0 {
        Ok(Seq::empty())
    } else {
        match spec_tileset_texts(entries.drop_last()) {
            Err(e) => Err(e),
            Ok(texts) => match spec_tile_data_entry(entries.last()) {
                Err(e) => Err(e),
                Ok(item) => Ok(texts.push(item)),
            },
        }
    }
}

/// Reads one bag of a tileset's custom data as a tile's id and its text.
pub fn tile_data_entry(entry: &FieldBag) -> (r: Result<(i64, String), IndexingError>)
    ensures
        match r {
            Ok(item) => spec_tile_data_entry(entry@) == Ok::<(i64, Seq<char>), IndexingError>(
                (item.0, item.1@),
            ),
            Err(e) => spec_tile_data_entry(entry@) == Err::<(i64, Seq<char>), IndexingError>(e),
        },
{
    let id = match entry.get(TILE_ID_FIELD) {
        Some(v) => v,
        None => { return Err(IndexingError::MissingField); },
    };
    let data = match entry.get(TILE_DATA_FIELD) {
        Some(v) => v,
        None => { return Err(IndexingError::MissingField); },
    };
    match (id, data) {
        (Some(id), Some(data)) => {
            match data.as_str() {
                Some(text) => match id.as_i64() {
                    Some(tile) => Ok((tile, String::from_str(text))),
                    None => Err(IndexingError::WrongShape),
                },
                None => Err(IndexingError::WrongShape),
            }
        },
        _ => Err(IndexingError::WrongShape),
    }
}

/// Reads a tileset's custom data as the ids and texts of its tiles, in
/// order.
pub fn tileset_texts(entries: &Vec<FieldBag>) -> (r: Result<Vec<(i64, String)>, IndexingError>)
    ensures
        match r {
            Ok(texts) => spec_tileset_texts(entries.deep_view()) == Ok::<
                Seq<(i64, Seq<char>)>,
                IndexingError,
            >(texts.deep_view()),
            Err(e) => spec_tileset_texts(entries.deep_view()) == Err::<
                Seq<(i64, Seq<char>)>,
                IndexingError,
            >(e),
        },
{
    let mut texts: Vec<(i64, String)> = Vec::new();
    let mut i: usize = 0;
    let ghost all = entries.deep_view();
    assert(texts.deep_view() =~= Seq::<(i64, Seq<char>)>::empty());
    while i < entries.len()
        invariant
            i <= entries@.len(),
            all == entries.deep_view(),
            spec_tileset_texts(all.take(i as int)) == Ok::<Seq<(i64, Seq<char>)>, IndexingError>(
                texts.deep_view(),
            ),
        decreases entries@.len() - i,
    {
        proof {
            assert(all.take(i + 1).drop_last() =~= all.take(i as int));
            assert(all.take(i + 1).last() == entries@[i as int]@);
        }
        match tile_data_entry(&entries[i]) {
            Ok(item) => {
                let ghost before = texts.deep_view();
                let ghost added = (item.0, item.1@);
                texts.push(item);
                assert(texts.deep_view() =~= before.push(added));
            },
            Err(e) => {
                proof {
                    lemma_tileset_texts_error(all, i + 1);
                }
                return Err(e);
            },
        }
        i += 1;
    }
    assert(all.take(i as int) =~= all);
    Ok(texts)
}

/// An error among the first `n` bags is the error of them all.
pub proof fn lemma_tileset_texts_error(entries: Seq<FieldMap>, n: int)
    requires
        0 <= n <= entries.len(),
        spec_tileset_texts(entries.take(n)) is Err,
    ensures
        spec_tileset_texts(entries) == spec_tileset_texts(entries.take(n)),
    decreases entries.len() - n,
{
    if n < entries.len() {
        assert(entries.take(n + 1).drop_last() =~= entries.take(n));
        lemma_tileset_texts_error(entries, n + 1);
    } else {
        assert(entries.take(n) =~= entries);
    }
}

} // verus!
