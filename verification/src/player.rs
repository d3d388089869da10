//! The player: what is put into the world for it, and how the keys push it.

use vstd::prelude::*;
use crate::enemy::CREATURE_DEPTH;
use crate::health::Creature;
use crate::layers::{player_layers, spec_player_layers, Layers};
use crate::map::{Extent, WorldPoint};
use crate::tags::Player;

pub use crate::movement::{LastMovementDirection, MovementDirection};

verus! {

/// What is put into the world for the player.
#[derive(Clone, Copy, Debug, PartialEq, Eq, Structural)]
pub struct PlayerBundle {
    pub translation: WorldPoint,
    pub player: Player,
    pub creature: Creature,
    pub layers: Layers,
    pub last_direction: LastMovementDirection,
    /// Half the width and half the height of the player's body.
    pub half_extents: Extent,
}

/// The player that a spawn point at `at` puts into the world: facing down,
/// at the depth of creatures.
pub open spec fn spec_spawn_player(at: WorldPoint) -> PlayerBundle {
    PlayerBundle {
        translation: WorldPoint { x: at.x, y: at.y, z: CREATURE_DEPTH },
        player: Player,
        creature: Creature,
        layers: Layers { groups: 2, masks: 5 },
        last_direction: LastMovementDirection(MovementDirection::Down),
        half_extents: Extent { width: 20, height: 28 },
    }
}

/// The player that a spawn point at `at` puts into the world.
pub fn spawn_player(at: &WorldPoint) -> (bundle: PlayerBundle)
    ensures
        bundle == spec_spawn_player(*at),
        spec_player_layers(bundle.layers),
{
    PlayerBundle {
        translation: WorldPoint { x: at.x, y: at.y, z: CREATURE_DEPTH },
        player: Player,
        creature: Creature,
        layers: player_layers(),
        last_direction: LastMovementDirection(MovementDirection::Down),
        half_extents: Extent { width: 20, height: 28 },
    }
}

/// The keys that move the player, each down or not.
#[derive(Clone, Copy, Debug, PartialEq, Eq, Structural)]
pub struct MoveKeys {
    /// The key for up.
    pub w: bool,
    /// The key for left.
    pub a: bool,
    /// The key for down.
    pub s: bool,
    /// The key for right.
    pub d: bool,
}

/// A push along each axis, in steps of `MOVE_SPEED`.
#[derive(Clone, Copy, Debug, PartialEq, Eq, Structural)]
pub struct Push {
    pub x: i8,
    pub y: i8,
}

/// One step if the key is down, none if it is not.
pub open spec fn step(down: bool) -> int {
    if down {
        1
    } else {
        0
    }
}

/// The push that the keys give: right less left along x, up less down along
/// y, so that two keys against each other cancel out.
pub open spec fn spec_player_push(keys: MoveKeys) -> Push {
    Push { x: (step(keys.d) - step(keys.a)) as i8, y: (step(keys.w) - step(keys.s)) as i8 }
}

/// The push that the keys give to the player in a tick.
pub fn player_movement(keys: MoveKeys) -> (push: Push)
    ensures
        push == spec_player_push(keys),
        -1 <= push.x <= 1,
        -1 <= push.y <= 1,
{
    let mut x: i8 = 0;
    let mut y: i8 = 0;
    if keys.w {
        y += 1;
    }
    if keys.a {
        x -= 1;
    }
    if keys.s {
        y -= 1;
    }
    if keys.d {
        x += 1;
    }
    Push { x, y }
}

} // verus!
