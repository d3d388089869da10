//! Spawn points: places of the level that put a set number of players or
//! enemies into the world, one in each tick.

use vstd::prelude::*;
use crate::enemy::{spawn_enemy, spec_spawn_enemy, EnemyBundle};
use crate::fields::{FieldBag, FieldData, FieldMap};
use crate::indexer::{IndexingError, ParseFields};
use crate::map::WorldPoint;
use crate::player::{spawn_player, spec_spawn_player, PlayerBundle};
use crate::text::str_eq;

verus! {

/// The type name of a spawn point in the level file.
pub const START_LOCATION_ID: &'static str = "Start_Location";

/// The field that names what a spawn point puts into the world.
pub const CHARACTER_FIELD: &'static str = "Character";

/// The field that holds how many a spawn point puts into the world.
pub const COUNT_FIELD: &'static str = "Count";

/// What a spawn point puts into the world.
#[derive(Clone, Copy, Debug, PartialEq, Eq, Structural)]
pub enum StartEntity {
    Player,
    Enemy,
}

impl StartEntity {
    /// The kind that a name stands for: `"Player"` and `"Enemy"` name one,
    /// any other text is of the wrong shape.
    pub open spec fn spec_from_string(s: Seq<char>) -> Result<StartEntity, IndexingError> {
        if s == "Player"@ {
            Ok(StartEntity::Player)
        } else if s == "Enemy"@ {
            Ok(StartEntity::Enemy)
        } else {
            Err(IndexingError::WrongShape)
        }
    }

    /// The kind that a name stands for.
    pub fn from_string(s: &str) -> (r: Result<StartEntity, IndexingError>)
        ensures
            r == Self::spec_from_string(s@),
    {
        if str_eq(s, "Player") {
            Ok(StartEntity::Player)
        } else if str_eq(s, "Enemy") {
            Ok(StartEntity::Enemy)
        } else {
            Err(IndexingError::WrongShape)
        }
    }
}

/// A spawn point: what it puts into the world, how many of it, and how many
/// it has put there so far.
#[derive(Clone, Copy, Debug, PartialEq, Eq, Structural)]
pub struct StartLocation {
    pub character: StartEntity,
    pub count: i64,
    pub spawned: i64,
}

impl View for StartLocation {
    type V = StartLocation;

    open spec fn view(&self) -> StartLocation {
        *self
    }
}

impl ParseFields for StartLocation {
    /// A spawn point needs the field `Character` with the name of a kind in
    /// it, and the field `Count` with an integer of 64 bits in it. It starts
    /// with nothing put into the world. Of two faults the one in `Character`
    /// is reported.
    open spec fn spec_parse(fields: FieldMap) -> Result<
        StartLocation,
        IndexingError,
    > {
        if !fields.contains_key(CHARACTER_FIELD@) {
            Err(IndexingError::MissingField)
        } else {
            match fields[CHARACTER_FIELD@] {
                Some(FieldData::Text(name)) => match StartEntity::spec_from_string(name) {
                    Err(e) => Err(e),
                    Ok(character) => if !fields.contains_key(COUNT_FIELD@) {
                        Err(IndexingError::MissingField)
                    } else {
                        match fields[COUNT_FIELD@] {
                            Some(value) => match value.as_i64() {
                                Some(count) => Ok(StartLocation { character, count, spawned: 0 }),
                                None => Err(IndexingError::WrongShape),
                            },
                            None => Err(IndexingError::WrongShape),
                        }
                    },
                },
                _ => Err(IndexingError::WrongShape),
            }
        }
    }

    fn parse(fields: &FieldBag) -> (r: Result<StartLocation, IndexingError>) {
        let character = match fields.get(CHARACTER_FIELD) {
            None => { return Err(IndexingError::MissingField); },
            Some(None) => { return Err(IndexingError::WrongShape); },
            Some(Some(value)) => match value.as_str() {
                None => { return Err(IndexingError::WrongShape); },
                Some(name) => match StartEntity::from_string(name) {
                    Err(e) => { return Err(e); },
                    Ok(character) => character,
                },
            },
        };
        match fields.get(COUNT_FIELD) {
            None => Err(IndexingError::MissingField),
            Some(None) => Err(IndexingError::WrongShape),
            Some(Some(value)) => match value.as_i64() {
                Some(count) => Ok(StartLocation { character, count, spawned: 0 }),
                None => Err(IndexingError::WrongShape),
            },
        }
    }
}

impl StartLocation {
    /// Whether the point has put into the world no more than it is to: none
    /// below zero, and none at all where the count is below zero.
    pub open spec fn well_formed(self) -> bool {
        0 <= self.spawned && (self.spawned <= self.count || self.spawned == 0)
    }

    /// Whether the point puts one more into the world in its next tick.
    pub open spec fn spawns_now(self) -> bool {
        self.spawned < self.count
    }

    /// How many the point has yet to put into the world.
    pub open spec fn remaining(self) -> int {
        if self.spawned < self.count {
            self.count - self.spawned
        } else {
            0
        }
    }

    /// The point after one tick: it has put one more into the world if it
    /// was still to, and is as before if it was not.
    pub open spec fn spec_tick(self) -> StartLocation {
        if self.spawns_now() {
            StartLocation {
                character: self.character,
                count: self.count,
                spawned: (self.spawned + 1) as i64,
            }
        } else {
            self
        }
    }

    /// One tick of the point: where it has yet to put something into the
    /// world it puts one there, never more, and returns its kind; where it
    /// has put there all it was to, it does nothing.
    pub fn tick(&mut self) -> (spawn: Option<StartEntity>)
        ensures
            *final(self) == old(self).spec_tick(),
            spawn == if old(self).spawns_now() {
                Some(old(self).character)
            } else {
                None
            },
            old(self).well_formed() ==> final(self).well_formed(),
            final(self).spawned >= old(self).spawned,
    {
        if self.spawned < self.count {
            self.spawned += 1;
            Some(self.character)
        } else {
            None
        }
    }
}

/// The point after `n` ticks.
pub open spec fn after_ticks(point: StartLocation, n: nat) -> StartLocation
    decreases n,
{
    if n == 0 {
        point
    } else {
        after_ticks(point, (n - 1) as nat).spec_tick()
    }
}

/// How many the point puts into the world in its next `n` ticks.
pub open spec fn spawned_in_ticks(point: StartLocation, n: nat) -> nat
    decreases n,
{
    if n == 0 {
        0
    } else {
        let before = (n - 1) as nat;
        spawned_in_ticks(point, before) + if after_ticks(point, before).spawns_now() {
            1nat
        } else {
            0nat
        }
    }
}

/// The smaller of two numbers.
pub open spec fn least(a: int, b: int) -> int {
    if a <= b {
        a
    } else {
        b
    }
}

/// A spawn point puts one into the world in each tick until none remains,
/// and nothing after that: in `n` ticks it puts there `n` or what remained,
/// whichever is less, and counts as many more. What it puts there and how
/// many it is to put there never change.
pub proof fn lemma_spawn_pacing(point: StartLocation, n: nat)
    ensures
        spawned_in_ticks(point, n) == least(n as int, point.remaining()),
        after_ticks(point, n).spawned == point.spawned + least(n as int, point.remaining()),
        after_ticks(point, n).count == point.count,
        after_ticks(point, n).character == point.character,
        point.well_formed() ==> after_ticks(point, n).well_formed(),
    decreases n,
{
    if n > 0 {
        lemma_spawn_pacing(point, (n - 1) as nat);
    }
}

/// A spawn point that has put nothing into the world yet and is to put
/// `count` there has put there exactly `count` after `count` ticks, and
/// still exactly `count` after any number of ticks more.
pub proof fn lemma_spawns_exactly_count(point: StartLocation, more: nat)
    requires
        point.spawned == 0,
        point.count >= 0,
    ensures
        spawned_in_ticks(point, point.count as nat) == point.count,
        after_ticks(point, point.count as nat).spawned == point.count,
        spawned_in_ticks(point, (point.count + more) as nat) == point.count,
        after_ticks(point, (point.count + more) as nat).spawned == point.count,
{
    lemma_spawn_pacing(point, point.count as nat);
    lemma_spawn_pacing(point, (point.count + more) as nat);
}

/// Something that a spawn point puts into the world.
#[derive(Clone, Copy, Debug, PartialEq, Eq, Structural)]
pub enum Spawned {
    Player(PlayerBundle),
    Enemy(EnemyBundle),
}

/// What a spawn point at `at` puts into the world for `kind`.
pub open spec fn spec_spawned(kind: StartEntity, at: WorldPoint) -> Spawned {
    match kind {
        StartEntity::Player => Spawned::Player(spec_spawn_player(at)),
        StartEntity::Enemy => Spawned::Enemy(spec_spawn_enemy(at)),
    }
}

/// What the spawn points put into the world in one tick, in the order of
/// the points: one for each point that has yet to put something there.
pub open spec fn spec_spawns(points: Seq<(StartLocation, WorldPoint)>) -> Seq<Spawned>
    decreases points.len(),
{
    if points.len() == 0 {
        Seq::empty()
    } else {
        let before = spec_spawns(points.drop_last());
        let (point, at) = points.last();
        if point.spawns_now() {
            before.push(spec_spawned(point.character, at))
        } else {
            before
        }
    }
}

/// One tick of the spawn points: each row holds a point and its place.
/// Each point that has yet to put something into the world puts one there,
/// at its place. Returns what is put there.
pub fn spawn_from_spawn_location(points: &mut Vec<(StartLocation, WorldPoint)>) -> (spawns: Vec<
    Spawned,
>)
    ensures
        final(points)@.len() == old(points)@.len(),
        forall|i: int|
            0 <= i < old(points)@.len() ==> final(points)@[i] == (
                old(points)@[i].0.spec_tick(),
                old(points)@[i].1,
            ),
        spawns@ == spec_spawns(old(points)@),
{
    let mut spawns: Vec<Spawned> = Vec::new();
    let mut i: usize = 0;
    while i < points.len()
        invariant
            i <= points@.len(),
            points@.len() == old(points)@.len(),
            forall|j: int|
                0 <= j < i ==> points@[j] == (old(points)@[j].0.spec_tick(), old(points)@[j].1),
            forall|j: int| i <= j < points@.len() ==> points@[j] == old(points)@[j],
            spawns@ == spec_spawns(old(points)@.take(i as int)),
        decreases points@.len() - i,
    {
        proof {
            assert(old(points)@.take(i + 1).drop_last() =~= old(points)@.take(i as int));
        }
        let mut point = points[i].0;
        let at = points[i].1;
        match point.tick() {
            Some(StartEntity::Player) => {
                spawns.push(Spawned::Player(spawn_player(&at)));
            },
            Some(StartEntity::Enemy) => {
                spawns.push(Spawned::Enemy(spawn_enemy(&at)));
            },
            None => {},
        }
        points.set(i, (point, at));
        i += 1;
    }
    assert(old(points)@.take(i as int) =~= old(points)@);
    spawns
}

/// Hides the markers of the spawn points: sets each flag of visibility to
/// `false`.
pub fn mark_spawns_as_invisible(visible: &mut Vec<bool>)
    ensures
        final(visible)@.len() == old(visible)@.len(),
        forall|i: int| 0 <= i < final(visible)@.len() ==> !final(visible)@[i],
{
    let mut i: usize = 0;
    while i < visible.len()
        invariant
            i <= visible@.len(),
            visible@.len() == old(visible)@.len(),
            forall|j: int| 0 <= j < i ==> !visible@[j],
        decreases visible@.len() - i,
    {
        visible.set(i, false);
        i += 1;
    }
}

} // verus!
