//! Tags that mark what an entity is, and the kinds of map tile.

use vstd::prelude::*;
use crate::text::str_eq;

pub use crate::enemy::Enemy;

verus! {

/// Marks the entity that the player controls.
#[derive(Clone, Copy, Debug, PartialEq, Eq, Structural)]
pub struct Player;

/// What a map tile is made of.
#[derive(Clone, Copy, Debug, PartialEq, Eq, Structural)]
pub enum WorldType {
    Air,
    Wall,
    Door,
    Nothing,
}

/// The tile kind that a tileset's custom data names, if it names one.
pub open spec fn spec_world_type_from_str(s: Seq<char>) -> Option<WorldType> {
    if s == "Wall"@ {
        Some(WorldType::Wall)
    } else if s == "Floor"@ {
        Some(WorldType::Air)
    } else {
        None
    }
}

/// Reads a tile kind from the text a tileset attaches to a tile:
/// `"Wall"` is a wall, `"Floor"` is air, anything else names no kind.
pub fn world_type_from_str(s: &str) -> (kind: Option<WorldType>)
    ensures
        kind == spec_world_type_from_str(s@),
{
    if str_eq(s, "Wall") {
        Some(WorldType::Wall)
    } else if str_eq(s, "Floor") {
        Some(WorldType::Air)
    } else {
        None
    }
}

} // verus!
