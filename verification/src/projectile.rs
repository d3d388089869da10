//! Projectiles: how one is cast, what it hits, and what a hit does.

use vstd::prelude::*;
use crate::assoc::{find_id, ids_of, last_index_of};
use crate::health::Damaged;
use crate::layers::{projectile_layers, spec_projectile_layers, GameLayer, Layers};
use crate::map::Extent;

verus! {

/// A projectile in flight.
#[derive(Clone, Copy, Debug, PartialEq, Eq, Structural)]
pub struct Projectile {
    pub size: Extent,
    /// The damage it deals to a creature it hits.
    pub damage: i32,
}

impl Default for Projectile {
    /// A projectile of 30 by 30 that deals 10 damage.
    fn default() -> (projectile: Projectile)
        ensures
            projectile == (Projectile { size: Extent { width: 30, height: 30 }, damage: 10 }),
    {
        Projectile { size: Extent { width: 30, height: 30 }, damage: 10 }
    }
}

/// What is put into the world for a projectile.
#[derive(Clone, Copy, Debug, PartialEq, Eq, Structural)]
pub struct ProjectileBundle {
    pub projectile: Projectile,
    pub collision_layers: Layers,
}

impl Default for ProjectileBundle {
    /// The default projectile, in every group and with every mask.
    fn default() -> (bundle: ProjectileBundle)
        ensures
            bundle == (ProjectileBundle {
                projectile: Projectile { size: Extent { width: 30, height: 30 }, damage: 10 },
                collision_layers: Layers { groups: 0xffff_ffff, masks: 0xffff_ffff },
            }),
    {
        ProjectileBundle {
            projectile: Projectile::default(),
            collision_layers: Layers { groups: 0xffff_ffff, masks: 0xffff_ffff },
        }
    }
}

/// The damage of a projectile that the player casts.
pub const CAST_DAMAGE: i32 = 50;

/// Half the width and half the height of the body of a cast projectile.
pub const CAST_HALF_EXTENT: u32 = 6;

/// The shortest time a cast projectile lasts, in milliseconds.
pub const CAST_LIFETIME_MIN_MS: u32 = 1000;

/// The time before which a cast projectile is gone, in milliseconds.
pub const CAST_LIFETIME_MAX_MS: u32 = 2000;

/// What a cast needs: the button was pressed in this tick, there is a
/// player to cast from, and the cursor is in the window.
#[derive(Clone, Copy, Debug, PartialEq, Eq, Structural)]
pub struct CastInput {
    pub just_pressed: bool,
    pub has_player: bool,
    pub has_cursor: bool,
    /// The size of the window.
    pub window: Extent,
}

/// The projectile that is cast for `input`, if one is: of the size of the
/// window, with `CAST_DAMAGE`, on the layers of a projectile.
pub open spec fn spec_cast_projectile(input: CastInput) -> Option<ProjectileBundle> {
    if input.just_pressed && input.has_player && input.has_cursor {
        Some(
            ProjectileBundle {
                projectile: Projectile { size: input.window, damage: CAST_DAMAGE },
                collision_layers: Layers { groups: 8, masks: 7 },
            },
        )
    } else {
        None
    }
}

/// Casts a projectile from the player on a press of the button.
pub fn cast_projectile(input: CastInput) -> (cast: Option<ProjectileBundle>)
    ensures
        cast == spec_cast_projectile(input),
        cast matches Some(bundle) ==> spec_projectile_layers(bundle.collision_layers),
{
    if input.just_pressed && input.has_player && input.has_cursor {
        Some(
            ProjectileBundle {
                projectile: Projectile { size: input.window, damage: CAST_DAMAGE },
                collision_layers: projectile_layers(),
            },
        )
    } else {
        None
    }
}

/// A body with these layers is a creature: the player or an enemy.
pub open spec fn spec_is_creature(layers: Layers) -> bool {
    layers.in_group(GameLayer::Player) || layers.in_group(GameLayer::Enemy)
}

/// A body with these layers is a projectile.
pub open spec fn spec_is_projectile(layers: Layers) -> bool {
    layers.in_group(GameLayer::Projectile)
}

/// A body with these layers is part of the world.
pub open spec fn spec_is_world(layers: Layers) -> bool {
    layers.in_group(GameLayer::World)
}

/// Whether a body with these layers is a creature.
pub fn is_creature(layers: Layers) -> (r: bool)
    ensures
        r == spec_is_creature(layers),
{
    layers.contains_group(GameLayer::Player) || layers.contains_group(GameLayer::Enemy)
}

/// Whether a body with these layers is a projectile.
pub fn is_projectile(layers: Layers) -> (r: bool)
    ensures
        r == spec_is_projectile(layers),
{
    layers.contains_group(GameLayer::Projectile)
}

/// Whether a body with these layers is part of the world.
pub fn is_world(layers: Layers) -> (r: bool)
    ensures
        r == spec_is_world(layers),
{
    layers.contains_group(GameLayer::World)
}

/// One of the two bodies of a collision.
#[derive(Clone, Copy, Debug, PartialEq, Eq, Structural)]
pub struct CollisionBody {
    pub entity: u64,
    pub layers: Layers,
}

/// Two bodies that began or ceased to touch.
#[derive(Clone, Copy, Debug, PartialEq, Eq, Structural)]
pub struct Collision {
    /// Whether the bodies began to touch; if not, they ceased to.
    pub started: bool,
    pub first: CollisionBody,
    pub second: CollisionBody,
}

/// A projectile that met something.
#[derive(Clone, Copy, Debug, PartialEq, Eq, Structural)]
pub struct Impact {
    /// The entity that was met.
    pub target: u64,
    pub projectile: u64,
}

/// The creature and the projectile of a collision in which a creature and a
/// projectile began to touch, whichever of the two comes first.
pub open spec fn spec_creature_impact(c: Collision) -> Option<Impact> {
    if !c.started {
        None
    } else if spec_is_creature(c.first.layers) && spec_is_projectile(c.second.layers) {
        Some(Impact { target: c.first.entity, projectile: c.second.entity })
    } else if spec_is_projectile(c.first.layers) && spec_is_creature(c.second.layers) {
        Some(Impact { target: c.second.entity, projectile: c.first.entity })
    } else {
        None
    }
}

/// The piece of world and the projectile of a collision in which the world
/// and a projectile began to touch, whichever of the two comes first.
pub open spec fn spec_world_impact(c: Collision) -> Option<Impact> {
    if !c.started {
        None
    } else if spec_is_world(c.first.layers) && spec_is_projectile(c.second.layers) {
        Some(Impact { target: c.first.entity, projectile: c.second.entity })
    } else if spec_is_projectile(c.first.layers) && spec_is_world(c.second.layers) {
        Some(Impact { target: c.second.entity, projectile: c.first.entity })
    } else {
        None
    }
}

/// The creature and the projectile of a collision between the two.
pub fn creature_impact(c: &Collision) -> (impact: Option<Impact>)
    ensures
        impact == spec_creature_impact(*c),
{
    if !c.started {
        None
    } else if is_creature(c.first.layers) && is_projectile(c.second.layers) {
        Some(Impact { target: c.first.entity, projectile: c.second.entity })
    } else if is_projectile(c.first.layers) && is_creature(c.second.layers) {
        Some(Impact { target: c.second.entity, projectile: c.first.entity })
    } else {
        None
    }
}

/// The piece of world and the projectile of a collision between the two.
pub fn world_impact(c: &Collision) -> (impact: Option<Impact>)
    ensures
        impact == spec_world_impact(*c),
{
    if !c.started {
        None
    } else if is_world(c.first.layers) && is_projectile(c.second.layers) {
        Some(Impact { target: c.first.entity, projectile: c.second.entity })
    } else if is_projectile(c.first.layers) && is_world(c.second.layers) {
        Some(Impact { target: c.second.entity, projectile: c.first.entity })
    } else {
        None
    }
}

/// The projectile that the table holds for `entity`.
pub open spec fn spec_projectile_of(projectiles: Seq<(u64, Projectile)>, entity: u64) -> Option<
    Projectile,
> {
    match last_index_of(ids_of(projectiles), entity) {
        Some(i) => Some(projectiles[i].1),
        None => None,
    }
}

/// The projectile that the table holds for `entity`.
pub fn projectile_of(projectiles: &Vec<(u64, Projectile)>, entity: u64) -> (found: Option<
    Projectile,
>)
    ensures
        found == spec_projectile_of(projectiles@, entity),
{
    match find_id(projectiles, entity) {
        Some(i) => Some(projectiles[i].1),
        None => None,
    }
}

/// What one collision does where a projectile hits a creature: the
/// creature takes the projectile's damage and the projectile is gone. A
/// collision of another kind, or with a projectile that the table does not
/// hold, does nothing.
pub open spec fn spec_hit(c: Collision, projectiles: Seq<(u64, Projectile)>) -> Option<
    (Damaged, u64),
> {
    match spec_creature_impact(c) {
        Some(impact) => match spec_projectile_of(projectiles, impact.projectile) {
            Some(p) => Some(
                (Damaged { damage: p.damage, entity: impact.target }, impact.projectile),
            ),
            None => None,
        },
        None => None,
    }
}

/// The damage that the collisions deal, one message for each hit, in order.
pub open spec fn spec_damage(
    collisions: Seq<Collision>,
    projectiles: Seq<(u64, Projectile)>,
) -> Seq<Damaged>
    decreases collisions.len(),
{
    if collisions.len() == 0 {
        Seq::empty()
    } else {
        let before = spec_damage(collisions.drop_last(), projectiles);
        match spec_hit(collisions.last(), projectiles) {
            Some(hit) => before.push(hit.0),
            None => before,
        }
    }
}

/// The projectiles that hit a creature, one for each hit, in order.
pub open spec fn spec_spent(
    collisions: Seq<Collision>,
    projectiles: Seq<(u64, Projectile)>,
) -> Seq<u64>
    decreases collisions.len(),
{
    if collisions.len() == 0 {
        Seq::empty()
    } else {
        let before = spec_spent(collisions.drop_last(), projectiles);
        match spec_hit(collisions.last(), projectiles) {
            Some(hit) => before.push(hit.1),
            None => before,
        }
    }
}

/// The projectiles that hit the world, one for each hit, in order.
pub open spec fn spec_stopped(collisions: Seq<Collision>) -> Seq<u64>
    decreases collisions.len(),
{
    if collisions.len() == 0 {
        Seq::empty()
    } else {
        let before = spec_stopped(collisions.drop_last());
        match spec_world_impact(collisions.last()) {
            Some(impact) => before.push(impact.projectile),
            None => before,
        }
    }
}

/// What the hits of projectiles on creatures come to.
#[derive(Debug)]
pub struct Hits {
    /// The damage dealt, one message for each hit.
    pub damaged: Vec<Damaged>,
    /// The projectiles to take out of the world, one for each hit.
    pub despawned: Vec<u64>,
}

/// Where a projectile begins to touch a creature, the creature takes the
/// projectile's damage and the projectile is taken out of the world.
pub fn on_collide_apply_damage(
    collisions: &Vec<Collision>,
    projectiles: &Vec<(u64, Projectile)>,
) -> (hits: Hits)
    ensures
        hits.damaged@ == spec_damage(collisions@, projectiles@),
        hits.despawned@ == spec_spent(collisions@, projectiles@),
{
    let mut damaged: Vec<Damaged> = Vec::new();
    let mut despawned: Vec<u64> = Vec::new();
    let mut i: usize = 0;
    while i < collisions.len()
        invariant
            i <= collisions@.len(),
            damaged@ == spec_damage(collisions@.take(i as int), projectiles@),
            despawned@ == spec_spent(collisions@.take(i as int), projectiles@),
        decreases collisions@.len() - i,
    {
        proof {
            assert(collisions@.take(i + 1).drop_last() =~= collisions@.take(i as int));
        }
        match creature_impact(&collisions[i]) {
            Some(impact) => {
                match projectile_of(projectiles, impact.projectile) {
                    Some(p) => {
                        damaged.push(Damaged { damage: p.damage, entity: impact.target });
                        despawned.push(impact.projectile);
                    },
                    None => {},
                }
            },
            None => {},
        }
        i += 1;
    }
    assert(collisions@.take(i as int) =~= collisions@);
    Hits { damaged, despawned }
}

/// Where a projectile begins to touch the world, the projectile is taken
/// out of the world. Returns those projectiles, one for each such
/// collision, in order.
pub fn on_collide_despawn(collisions: &Vec<Collision>) -> (despawned: Vec<u64>)
    ensures
        despawned@ == spec_stopped(collisions@),
{
    let mut despawned: Vec<u64> = Vec::new();
    let mut i: usize = 0;
    while i < collisions.len()
        invariant
            i <= collisions@.len(),
            despawned@ == spec_stopped(collisions@.take(i as int)),
        decreases collisions@.len() - i,
    {
        proof {
            assert(collisions@.take(i + 1).drop_last() =~= collisions@.take(i as int));
        }
        match world_impact(&collisions[i]) {
            Some(impact) => {
                despawned.push(impact.projectile);
            },
            None => {},
        }
        i += 1;
    }
    assert(collisions@.take(i as int) =~= collisions@);
    despawned
}

} // verus!
