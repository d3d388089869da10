//! The direction a creature last moved in, and the picture that shows it.

use vstd::prelude::*;

verus! {

/// One of the four directions of the map.
#[derive(Clone, Copy, Debug, PartialEq, Eq, PartialOrd, Ord, Structural)]
pub enum MovementDirection {
    Up,
    Down,
    Left,
    Right,
}

/// The direction a creature last moved in.
#[derive(Clone, Copy, Debug, PartialEq, Eq, Structural)]
pub struct LastMovementDirection(pub MovementDirection);

/// Which axis of a velocity is the longer one.
#[derive(Clone, Copy, Debug, PartialEq, Eq, Structural)]
pub enum Dominance {
    /// The velocity has no part along either axis of the map.
    Neither,
    /// The part along x is the longer.
    Horizontal,
    /// The part along y is the longer.
    Vertical,
    /// The two parts are of one length, or cannot be compared.
    Balanced,
}

/// A velocity as far as the direction of movement depends on it.
#[derive(Clone, Copy, Debug, PartialEq, Eq, Structural)]
pub struct Heading {
    pub dominance: Dominance,
    /// Whether the part along x is above zero.
    pub x_positive: bool,
    /// Whether the part along y is above zero.
    pub y_positive: bool,
}

/// The picture of a creature that faces `d`, as its place in the sheet.
pub open spec fn spec_direction_sprite(d: MovementDirection) -> u32 {
    match d {
        MovementDirection::Up => 3,
        MovementDirection::Down => 0,
        MovementDirection::Left => 2,
        MovementDirection::Right => 1,
    }
}

/// The picture of a creature that faces `d`, as its place in the sheet.
pub fn map_direction_to_sprite(d: MovementDirection) -> (index: u32)
    ensures
        index == spec_direction_sprite(d),
{
    match d {
        MovementDirection::Up => 3,
        MovementDirection::Down => 0,
        MovementDirection::Left => 2,
        MovementDirection::Right => 1,
    }
}

/// The pictures of creatures, one for each direction given, in order.
pub fn animate_creature(directions: &Vec<LastMovementDirection>) -> (sprites: Vec<u32>)
    ensures
        sprites@.len() == directions@.len(),
        forall|i: int|
            0 <= i < directions@.len() ==> sprites@[i] == spec_direction_sprite(directions@[i].0),
{
    let mut sprites: Vec<u32> = Vec::new();
    let mut i: usize = 0;
    while i < directions.len()
        invariant
            i <= directions@.len(),
            sprites@.len() == i,
            forall|j: int| 0 <= j < i ==> sprites@[j] == spec_direction_sprite(directions@[j].0),
        decreases directions@.len() - i,
    {
        sprites.push(map_direction_to_sprite(directions[i].0));
        i += 1;
    }
    sprites
}

/// The direction of a creature that moves with `heading` and faced
/// `current` before: down where it moves along neither axis, along the
/// longer axis where there is one, and as before where there is none.
pub open spec fn spec_primary_direction(
    heading: Heading,
    current: MovementDirection,
) -> MovementDirection {
    match heading.dominance {
        Dominance::Neither => MovementDirection::Down,
        Dominance::Horizontal => if heading.x_positive {
            MovementDirection::Right
        } else {
            MovementDirection::Left
        },
        Dominance::Vertical => if heading.y_positive {
            MovementDirection::Up
        } else {
            MovementDirection::Down
        },
        Dominance::Balanced => current,
    }
}

/// The direction of a creature that moves with `heading` and faced
/// `current` before.
pub fn primary_direction(heading: Heading, current: MovementDirection) -> (d: MovementDirection)
    ensures
        d == spec_primary_direction(heading, current),
{
    match heading.dominance {
        Dominance::Neither => MovementDirection::Down,
        Dominance::Horizontal => {
            if heading.x_positive {
                MovementDirection::Right
            } else {
                MovementDirection::Left
            }
        },
        Dominance::Vertical => {
            if heading.y_positive {
                MovementDirection::Up
            } else {
                MovementDirection::Down
            }
        },
        Dominance::Balanced => current,
    }
}

/// Turns each creature to the direction it moves in: each row holds how a
/// creature moves and the direction it faces. Returns, for each creature in
/// order, whether that changed its direction.
pub fn update_last_direction(rows: &mut Vec<(Heading, LastMovementDirection)>) -> (turned: Vec<
    bool,
>)
    ensures
        final(rows)@.len() == old(rows)@.len(),
        turned@.len() == old(rows)@.len(),
        forall|i: int|
            0 <= i < old(rows)@.len() ==> final(rows)@[i] == (
                old(rows)@[i].0,
                LastMovementDirection(
                    spec_primary_direction(old(rows)@[i].0, old(rows)@[i].1.0),
                ),
            ),
        forall|i: int|
            0 <= i < old(rows)@.len() ==> turned@[i] == (final(rows)@[i].1 != old(rows)@[i].1),
{
    let mut turned: Vec<bool> = Vec::new();
    let mut i: usize = 0;
    while i < rows.len()
        invariant
            i <= rows@.len(),
            rows@.len() == old(rows)@.len(),
            turned@.len() == i,
            forall|j: int|
                0 <= j < i ==> rows@[j] == (
                    old(rows)@[j].0,
                    LastMovementDirection(
                        spec_primary_direction(old(rows)@[j].0, old(rows)@[j].1.0),
                    ),
                ),
            forall|j: int| 0 <= j < i ==> turned@[j] == (rows@[j].1 != old(rows)@[j].1),
            forall|j: int| i <= j < rows@.len() ==> rows@[j] == old(rows)@[j],
        decreases rows@.len() - i,
    {
        let heading = rows[i].0;
        let current = rows[i].1.0;
        let next = primary_direction(heading, current);
        if current != next {
            rows.set(i, (heading, LastMovementDirection(next)));
            turned.push(true);
        } else {
            turned.push(false);
        }
        i += 1;
    }
    turned
}

} // verus!
