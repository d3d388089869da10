//! The layers that bodies collide on: each body belongs to some layers (its
//! groups) and meets the bodies of some layers (its masks).

use vstd::prelude::*;

verus! {

/// A layer of the game's physics.
#[derive(Clone, Copy, Debug, PartialEq, Eq, Structural)]
pub enum GameLayer {
    World,
    Player,
    Enemy,
    Projectile,
}

impl GameLayer {
    /// The bit that stands for the layer: one bit each, in the order of the
    /// variants.
    pub open spec fn spec_to_bits(self) -> u32 {
        match self {
            GameLayer::World => 1,
            GameLayer::Player => 2,
            GameLayer::Enemy => 4,
            GameLayer::Projectile => 8,
        }
    }

    /// The bit that stands for the layer.
    pub fn to_bits(&self) -> (bits: u32)
        ensures
            bits == self.spec_to_bits(),
    {
        match self {
            GameLayer::World => 1,
            GameLayer::Player => 2,
            GameLayer::Enemy => 4,
            GameLayer::Projectile => 8,
        }
    }

    /// The bits of all layers together.
    pub fn all_bits() -> (bits: u32)
        ensures
            bits == 15,
    {
        15
    }
}

/// The groups and masks of one body, one bit for each layer.
#[derive(Clone, Copy, Debug, PartialEq, Eq, Structural)]
pub struct Layers {
    pub groups: u32,
    pub masks: u32,
}

/// Setting the bit of a layer sets that bit and leaves the bits of the other
/// layers as they were.
pub proof fn lemma_set_layer_bit(bits: u32, set: GameLayer, asked: GameLayer)
    ensures
        ((bits | set.spec_to_bits()) & asked.spec_to_bits() != 0) == (asked == set || bits
            & asked.spec_to_bits() != 0),
{
    let s = set.spec_to_bits();
    let a = asked.spec_to_bits();
    assert((s == 1 || s == 2 || s == 4 || s == 8) && (a == 1 || a == 2 || a == 4 || a == 8) ==> (((
    bits | s) & a != 0) == (a == s || bits & a != 0))) by (bit_vector);
}

impl Layers {
    /// Whether `layer` is among the groups.
    pub open spec fn in_group(self, layer: GameLayer) -> bool {
        self.groups & layer.spec_to_bits() != 0
    }

    /// Whether `layer` is among the masks.
    pub open spec fn in_mask(self, layer: GameLayer) -> bool {
        self.masks & layer.spec_to_bits() != 0
    }

    /// No group and no mask: a body that meets nothing.
    pub fn none() -> (layers: Layers)
        ensures
            layers.groups == 0,
            layers.masks == 0,
            forall|l: GameLayer| !layers.in_group(l) && !layers.in_mask(l),
    {
        let layers = Layers { groups: 0, masks: 0 };
        assert forall|l: GameLayer| !layers.in_group(l) && !layers.in_mask(l) by {
            let b = l.spec_to_bits();
            assert(0u32 & b == 0) by (bit_vector);
        }
        layers
    }

    /// The layers with `layer` added to the groups.
    pub fn with_group(self, layer: GameLayer) -> (layers: Layers)
        ensures
            layers.groups == self.groups | layer.spec_to_bits(),
            layers.masks == self.masks,
            forall|l: GameLayer| layers.in_group(l) == (l == layer || self.in_group(l)),
    {
        let layers = Layers { groups: self.groups | layer.to_bits(), masks: self.masks };
        assert forall|l: GameLayer| layers.in_group(l) == (l == layer || self.in_group(l)) by {
            lemma_set_layer_bit(self.groups, layer, l);
        }
        layers
    }

    /// The layers with `layer` added to the masks.
    pub fn with_mask(self, layer: GameLayer) -> (layers: Layers)
        ensures
            layers.groups == self.groups,
            layers.masks == self.masks | layer.spec_to_bits(),
            forall|l: GameLayer| layers.in_mask(l) == (l == layer || self.in_mask(l)),
    {
        let layers = Layers { groups: self.groups, masks: self.masks | layer.to_bits() };
        assert forall|l: GameLayer| layers.in_mask(l) == (l == layer || self.in_mask(l)) by {
            lemma_set_layer_bit(self.masks, layer, l);
        }
        layers
    }

    /// Whether `layer` is among the groups.
    pub fn contains_group(self, layer: GameLayer) -> (found: bool)
        ensures
            found == self.in_group(layer),
    {
        (self.groups & layer.to_bits()) != 0
    }

    /// Whether `layer` is among the masks.
    pub fn contains_mask(self, layer: GameLayer) -> (found: bool)
        ensures
            found == self.in_mask(layer),
    {
        (self.masks & layer.to_bits()) != 0
    }
}

/// The layers of an enemy: it is an enemy, and meets the world, the player
/// and projectiles.
pub open spec fn spec_enemy_layers(layers: Layers) -> bool {
    &&& forall|l: GameLayer| layers.in_group(l) == (l == GameLayer::Enemy)
    &&& forall|l: GameLayer| layers.in_mask(l) == (l != GameLayer::Enemy)
}

/// The layers of the player: it is the player, and meets the world and
/// enemies.
pub open spec fn spec_player_layers(layers: Layers) -> bool {
    &&& forall|l: GameLayer| layers.in_group(l) == (l == GameLayer::Player)
    &&& forall|l: GameLayer|
        layers.in_mask(l) == (l == GameLayer::World || l == GameLayer::Enemy)
}

/// The layers of a projectile: it is a projectile, and meets the world,
/// enemies and the player.
pub open spec fn spec_projectile_layers(layers: Layers) -> bool {
    &&& forall|l: GameLayer| layers.in_group(l) == (l == GameLayer::Projectile)
    &&& forall|l: GameLayer| layers.in_mask(l) == (l != GameLayer::Projectile)
}

/// The layers of a wall: it is of the world, and meets projectiles, enemies
/// and the player.
pub open spec fn spec_wall_layers(layers: Layers) -> bool {
    &&& forall|l: GameLayer| layers.in_group(l) == (l == GameLayer::World)
    &&& forall|l: GameLayer| layers.in_mask(l) == (l != GameLayer::World)
}

/// Layers written as bits are the layers of the kind of body that those bits
/// stand for.
pub proof fn lemma_layers_of_bits(layers: Layers)
    ensures
        layers == (Layers { groups: 4, masks: 11 }) ==> spec_enemy_layers(layers),
        layers == (Layers { groups: 2, masks: 5 }) ==> spec_player_layers(layers),
        layers == (Layers { groups: 8, masks: 7 }) ==> spec_projectile_layers(layers),
        layers == (Layers { groups: 1, masks: 14 }) ==> spec_wall_layers(layers),
{
    assert(4u32 & 1 == 0 && 4u32 & 2 == 0 && 4u32 & 4 != 0 && 4u32 & 8 == 0) by (bit_vector);
    assert(11u32 & 1 != 0 && 11u32 & 2 != 0 && 11u32 & 4 == 0 && 11u32 & 8 != 0) by (bit_vector);
    assert(2u32 & 1 == 0 && 2u32 & 2 != 0 && 2u32 & 4 == 0 && 2u32 & 8 == 0) by (bit_vector);
    assert(5u32 & 1 != 0 && 5u32 & 2 == 0 && 5u32 & 4 != 0 && 5u32 & 8 == 0) by (bit_vector);
    assert(8u32 & 1 == 0 && 8u32 & 2 == 0 && 8u32 & 4 == 0 && 8u32 & 8 != 0) by (bit_vector);
    assert(7u32 & 1 != 0 && 7u32 & 2 != 0 && 7u32 & 4 != 0 && 7u32 & 8 == 0) by (bit_vector);
    assert(1u32 & 1 != 0 && 1u32 & 2 == 0 && 1u32 & 4 == 0 && 1u32 & 8 == 0) by (bit_vector);
    assert(14u32 & 1 == 0 && 14u32 & 2 != 0 && 14u32 & 4 != 0 && 14u32 & 8 != 0) by (bit_vector);
}

/// The layers of an enemy.
pub fn enemy_layers() -> (layers: Layers)
    ensures
        spec_enemy_layers(layers),
        layers == (Layers { groups: 4, masks: 11 }),
{
    let layers = Layers::none().with_group(GameLayer::Enemy).with_mask(GameLayer::World).with_mask(
        GameLayer::Player,
    ).with_mask(GameLayer::Projectile);
    assert(0u32 | 4 == 4 && ((0u32 | 1) | 2) | 8 == 11) by (bit_vector);
    proof {
        lemma_layers_of_bits(layers);
    }
    layers
}

/// The layers of the player.
pub fn player_layers() -> (layers: Layers)
    ensures
        spec_player_layers(layers),
        layers == (Layers { groups: 2, masks: 5 }),
{
    let layers = Layers::none().with_group(GameLayer::Player).with_mask(GameLayer::World).with_mask(
        GameLayer::Enemy,
    );
    assert(0u32 | 2 == 2 && (0u32 | 1) | 4 == 5) by (bit_vector);
    proof {
        lemma_layers_of_bits(layers);
    }
    layers
}

/// The layers of a projectile.
pub fn projectile_layers() -> (layers: Layers)
    ensures
        spec_projectile_layers(layers),
        layers == (Layers { groups: 8, masks: 7 }),
{
    let layers = Layers::none().with_group(GameLayer::Projectile).with_mask(
        GameLayer::World,
    ).with_mask(GameLayer::Enemy).with_mask(GameLayer::Player);
    assert(0u32 | 8 == 8 && ((0u32 | 1) | 4) | 2 == 7) by (bit_vector);
    proof {
        lemma_layers_of_bits(layers);
    }
    layers
}

/// The layers of a wall.
pub fn wall_layers() -> (layers: Layers)
    ensures
        spec_wall_layers(layers),
        layers == (Layers { groups: 1, masks: 14 }),
{
    let layers = Layers::none().with_group(GameLayer::World).with_mask(
        GameLayer::Projectile,
    ).with_mask(GameLayer::Enemy).with_mask(GameLayer::Player);
    assert(0u32 | 1 == 1 && ((0u32 | 8) | 4) | 2 == 14) by (bit_vector);
    proof {
        lemma_layers_of_bits(layers);
    }
    layers
}

} // verus!
