//! Enemies: what state each is in, how chance moves it from state to state,
//! and how it moves in each state.

use rand::Rng;
use vstd::prelude::*;
use crate::health::Creature;
use crate::layers::{enemy_layers, spec_enemy_layers, Layers};
use crate::map::{Extent, WorldPoint};
use crate::movement::{LastMovementDirection, MovementDirection};

verus! {

/// What an enemy is doing.
#[derive(Clone, Copy, Debug, PartialEq, Eq, Structural)]
pub enum EnemyState {
    Idle,
    Patrol,
    /// Nothing leads into this state and nothing out of it.
    Attack,
    Wander,
}

/// The two steps that make up a tick of the enemies, in the order in which
/// they run: `ChangeState` comes before `Move`.
#[derive(Clone, Copy, Debug, Hash, PartialEq, Eq, Structural)]
pub enum EnemyFunctions {
    Move,
    ChangeState,
}

/// One enemy.
#[derive(Clone, Copy, Debug, PartialEq, Eq, Structural)]
pub struct Enemy {
    pub state: EnemyState,
    /// Where the enemy was put into the world.
    pub start_loc: WorldPoint,
    /// The way a patrol goes along y: `-1` is down, `1` is up.
    pub move_mod: i8,
}

impl Default for Enemy {
    /// An idle enemy at the origin that goes neither way.
    fn default() -> (enemy: Enemy)
        ensures
            enemy == (Enemy {
                state: EnemyState::Idle,
                start_loc: WorldPoint { x: 0, y: 0, z: 0 },
                move_mod: 0,
            }),
    {
        Enemy { state: EnemyState::Idle, start_loc: WorldPoint { x: 0, y: 0, z: 0 }, move_mod: 0 }
    }
}

/// An idle enemy leaves its state when a draw below this number gives zero.
pub const IDLE_CHANCE: i32 = 33;

/// A patrolling or wandering enemy goes idle when a draw below this number
/// gives zero.
pub const BUSY_CHANCE: i32 = 66;

/// The number of buckets from which the next state of an idle enemy is
/// drawn.
pub const STATE_BUCKETS: i32 = 4;

/// How far below its start a patrol turns round.
pub const PATROL_RANGE: i64 = 200;

/// The speed that a step of movement adds along an axis.
pub const MOVE_SPEED: i32 = 10;

/// The most speed along an axis.
pub const MAX_SPEED: i32 = 100;

/// What is left of a velocity after a tick, in hundredths.
pub const FRICTION_PERCENT: i32 = 95;

/// The speed along an axis, in hundredths, at or below which the axis comes
/// to rest.
pub const MIN_SPEED_PERCENT: i32 = 1;

/// The depth at which creatures stand.
pub const CREATURE_DEPTH: i64 = 100;

/// The state that a bucket stands for: bucket 0 is idle, bucket 1 is
/// patrol, every other bucket is wander.
pub open spec fn spec_sample_state(bucket: i32) -> EnemyState {
    if bucket == 0 {
        EnemyState::Idle
    } else if bucket == 1 {
        EnemyState::Patrol
    } else {
        EnemyState::Wander
    }
}

/// The state that a bucket stands for.
pub fn sample_state(bucket: i32) -> (state: EnemyState)
    ensures
        state == spec_sample_state(bucket),
{
    if bucket == 0 {
        EnemyState::Idle
    } else if bucket == 1 {
        EnemyState::Patrol
    } else {
        EnemyState::Wander
    }
}

/// How many of the buckets stand for `state`.
pub open spec fn spec_state_weight(state: EnemyState) -> nat {
    match state {
        EnemyState::Idle => 1,
        EnemyState::Patrol => 1,
        EnemyState::Wander => 2,
        EnemyState::Attack => 0,
    }
}

/// How many of the first `n` buckets stand for `state`.
pub open spec fn buckets_for(state: EnemyState, n: int) -> nat
    decreases n,
{
    if n <= 0 {
        0
    } else {
        buckets_for(state, n - 1) + if spec_sample_state((n - 1) as i32) == state {
            1nat
        } else {
            0nat
        }
    }
}

/// Of the four buckets one stands for idle, one for patrol, two for wander
/// and none for attack.
pub proof fn lemma_state_weights(state: EnemyState)
    ensures
        buckets_for(state, STATE_BUCKETS as int) == spec_state_weight(state),
{
    reveal_with_fuel(buckets_for, 5);
}

/// The number below which the chance of a state is drawn, for a state that
/// chance can end.
pub open spec fn spec_change_chance(state: EnemyState) -> Option<i32> {
    match state {
        EnemyState::Idle => Some(IDLE_CHANCE),
        EnemyState::Patrol => Some(BUSY_CHANCE),
        EnemyState::Wander => Some(BUSY_CHANCE),
        EnemyState::Attack => None,
    }
}

/// The number below which the chance of a state is drawn: 33 for idle, 66
/// for patrol and wander, none for attack.
pub fn change_chance(state: EnemyState) -> (bound: Option<i32>)
    ensures
        bound == spec_change_chance(state),
{
    match state {
        EnemyState::Idle => Some(IDLE_CHANCE),
        EnemyState::Patrol => Some(BUSY_CHANCE),
        EnemyState::Wander => Some(BUSY_CHANCE),
        EnemyState::Attack => None,
    }
}

/// The state after a tick, for the draw `chance` and, should an idle enemy
/// leave its state, the bucket `bucket`: a draw other than zero keeps the
/// state; on zero an idle enemy takes the state of the bucket, and a
/// patrolling or wandering one goes idle. An attacking enemy stays so.
pub open spec fn spec_next_state(state: EnemyState, chance: i32, bucket: i32) -> EnemyState {
    match state {
        EnemyState::Idle => if chance == 0 {
            spec_sample_state(bucket)
        } else {
            EnemyState::Idle
        },
        EnemyState::Patrol => if chance == 0 {
            EnemyState::Idle
        } else {
            EnemyState::Patrol
        },
        EnemyState::Wander => if chance == 0 {
            EnemyState::Idle
        } else {
            EnemyState::Wander
        },
        EnemyState::Attack => EnemyState::Attack,
    }
}

/// The state after a tick, for the draws `chance` and `bucket`.
pub fn next_state(state: EnemyState, chance: i32, bucket: i32) -> (next: EnemyState)
    ensures
        next == spec_next_state(state, chance, bucket),
{
    match state {
        EnemyState::Idle => {
            if chance == 0 {
                sample_state(bucket)
            } else {
                EnemyState::Idle
            }
        },
        EnemyState::Patrol => {
            if chance == 0 {
                EnemyState::Idle
            } else {
                EnemyState::Patrol
            }
        },
        EnemyState::Wander => {
            if chance == 0 {
                EnemyState::Idle
            } else {
                EnemyState::Wander
            }
        },
        EnemyState::Attack => EnemyState::Attack,
    }
}

/// Whether the next state of an enemy takes the draw of a bucket: it does
/// for an idle enemy whose draw of chance gave zero.
pub open spec fn spec_needs_bucket(state: EnemyState, chance: i32) -> bool {
    state == EnemyState::Idle && chance == 0
}

/// Whether the next state of an enemy takes the draw of a bucket.
pub fn needs_bucket(state: EnemyState, chance: i32) -> (needed: bool)
    ensures
        needed == spec_needs_bucket(state, chance),
{
    match state {
        EnemyState::Idle => chance == 0,
        _ => false,
    }
}

/// Whether a tick can take an enemy from `from` to `to`.
pub open spec fn can_follow(from: EnemyState, to: EnemyState) -> bool {
    match from {
        EnemyState::Idle => to != EnemyState::Attack,
        EnemyState::Patrol => to == EnemyState::Patrol || to == EnemyState::Idle,
        EnemyState::Wander => to == EnemyState::Wander || to == EnemyState::Idle,
        EnemyState::Attack => to == EnemyState::Attack,
    }
}

/// Whatever is drawn, the next state is one that can follow; attack is
/// never entered and never left. Where no bucket is needed, the bucket
/// makes no difference.
pub proof fn lemma_next_state_follows(state: EnemyState, chance: i32, bucket: i32)
    ensures
        can_follow(state, spec_next_state(state, chance, bucket)),
        (spec_next_state(state, chance, bucket) == EnemyState::Attack) == (state
            == EnemyState::Attack),
        !spec_needs_bucket(state, chance) ==> spec_next_state(state, chance, bucket)
            == spec_next_state(state, chance, 0),
{
}

/// Every state that can follow is the next state for some draws within
/// their bounds; a state that chance cannot end is followed by itself.
pub proof fn lemma_every_follower_is_drawn(from: EnemyState, to: EnemyState)
    requires
        can_follow(from, to),
    ensures
        match spec_change_chance(from) {
            Some(bound) => exists|chance: i32, bucket: i32|
                0 <= chance < bound && 0 <= bucket < STATE_BUCKETS && #[trigger] spec_next_state(
                    from,
                    chance,
                    bucket,
                ) == to,
            None => to == from,
        },
{
    match (from, to) {
        (EnemyState::Attack, _) => {},
        (EnemyState::Idle, EnemyState::Idle) => {
            assert(spec_next_state(from, 1, 0) == to);
        },
        (EnemyState::Idle, EnemyState::Patrol) => {
            assert(spec_next_state(from, 0, 1) == to);
        },
        (EnemyState::Idle, EnemyState::Wander) => {
            assert(spec_next_state(from, 0, 2) == to);
        },
        (_, EnemyState::Idle) => {
            assert(spec_next_state(from, 0, 0) == to);
        },
        _ => {
            assert(spec_next_state(from, 1, 0) == to);
        },
    }
}

/// `rand::rngs::ThreadRng`, the random number generator of a thread. It is
/// handed on as it is: nothing is known of what is inside.
#[verifier::external_type_specification]
#[verifier::external_body]
pub struct ExThreadRng(rand::rngs::ThreadRng);

/// `rand::thread_rng` hands out this thread's random number generator.
/// Nothing is claimed of it.
pub assume_specification[ rand::thread_rng ]() -> (rng: rand::rngs::ThreadRng)
;

/// `Rng::gen_range` on the range from zero up to, not including, `bound`:
/// the number drawn lies in that range. Which number it is depends on
/// chance; an empty range is not asked for.
#[verifier::external_body]
fn gen_below(rng: &mut rand::rngs::ThreadRng, bound: i32) -> (n: i32)
    requires
        0 < bound,
    ensures
        0 <= n < bound,
{
    rng.gen_range(0..bound)
}

/// Lets chance move each enemy on from its state: for each enemy that
/// chance can move, the chance is drawn below the bound of its state and,
/// where needed, a bucket below `STATE_BUCKETS`; the enemy takes the state
/// that `next_state` gives for them. The place where an enemy started and
/// the way its patrol goes stay as they are.
pub fn rand_update_enemy_state(enemies: &mut Vec<Enemy>)
    ensures
        final(enemies)@.len() == old(enemies)@.len(),
        forall|i: int|
            0 <= i < old(enemies)@.len() ==> {
                &&& final(enemies)@[i].start_loc == old(enemies)@[i].start_loc
                &&& final(enemies)@[i].move_mod == old(enemies)@[i].move_mod
                &&& can_follow(old(enemies)@[i].state, #[trigger] final(enemies)@[i].state)
            },
{
    let mut rng = rand::thread_rng();
    let mut i: usize = 0;
    while i < enemies.len()
        invariant
            i <= enemies@.len(),
            enemies@.len() == old(enemies)@.len(),
            forall|j: int|
                0 <= j < i ==> {
                    &&& enemies@[j].start_loc == old(enemies)@[j].start_loc
                    &&& enemies@[j].move_mod == old(enemies)@[j].move_mod
                    &&& can_follow(old(enemies)@[j].state, #[trigger] enemies@[j].state)
                },
            forall|j: int| i <= j < enemies@.len() ==> enemies@[j] == old(enemies)@[j],
        decreases enemies@.len() - i,
    {
        let enemy = enemies[i];
        match change_chance(enemy.state) {
            Some(bound) => {
                let chance = gen_below(&mut rng, bound);
                let bucket = if needs_bucket(enemy.state, chance) {
                    gen_below(&mut rng, STATE_BUCKETS)
                } else {
                    0
                };
                let next = next_state(enemy.state, chance, bucket);
                if next != enemy.state {
                    enemies.set(
                        i,
                        Enemy { state: next, start_loc: enemy.start_loc, move_mod: enemy.move_mod },
                    );
                }
            },
            None => {},
        }
        i += 1;
    }
}

/// How an enemy moves in a tick.
#[derive(Clone, Copy, Debug, PartialEq, Eq, Structural)]
pub enum Movement {
    /// No push.
    Still,
    /// A push of `MOVE_SPEED` along y, up for `1` and down for `-1`.
    Vertical(i8),
    /// A push along x and one along y, each drawn at random between
    /// `-MOVE_SPEED` and `MOVE_SPEED`.
    Random,
}

/// The way a patrol goes after a tick at height `y`: up once it is more
/// than `PATROL_RANGE` below its start, down once it is at its start or
/// above, and between the two the way it went before.
pub open spec fn spec_patrol_mod(move_mod: i8, y: int, start_y: int) -> i8 {
    if y < start_y - PATROL_RANGE {
        1
    } else if y >= start_y {
        -1i8
    } else {
        move_mod
    }
}

/// The enemy after the movement of a tick in which it stands at height `y`:
/// only a patrol changes, and only in the way it goes.
pub open spec fn spec_moved(enemy: Enemy, y: int) -> Enemy {
    match enemy.state {
        EnemyState::Patrol => Enemy {
            state: enemy.state,
            start_loc: enemy.start_loc,
            move_mod: spec_patrol_mod(enemy.move_mod, y, enemy.start_loc.y as int),
        },
        _ => enemy,
    }
}

/// The push that an enemy gets in a tick in which it stands at height `y`.
pub open spec fn spec_movement(enemy: Enemy, y: int) -> Movement {
    match enemy.state {
        EnemyState::Patrol => Movement::Vertical(spec_moved(enemy, y).move_mod),
        EnemyState::Wander => Movement::Random,
        _ => Movement::Still,
    }
}

/// Moves one enemy that stands at height `y`: a patrol turns round at its
/// bounds and is pushed the way it goes, a wanderer is pushed at random, and
/// an idle or attacking enemy is not pushed.
pub fn move_enemy(enemy: &mut Enemy, y: i64) -> (push: Movement)
    ensures
        *final(enemy) == spec_moved(*old(enemy), y as int),
        push == spec_movement(*old(enemy), y as int),
{
    match enemy.state {
        EnemyState::Patrol => {
            if (y as i128) < (enemy.start_loc.y as i128) - (PATROL_RANGE as i128) {
                enemy.move_mod = 1;
            } else if y >= enemy.start_loc.y {
                enemy.move_mod = -1;
            }
            Movement::Vertical(enemy.move_mod)
        },
        EnemyState::Wander => Movement::Random,
        _ => Movement::Still,
    }
}

/// Moves each enemy: each row holds an enemy and the height it stands at.
/// Returns the push for each enemy, in order.
pub fn move_down(rows: &mut Vec<(Enemy, i64)>) -> (pushes: Vec<Movement>)
    ensures
        final(rows)@.len() == old(rows)@.len(),
        pushes@.len() == old(rows)@.len(),
        forall|i: int|
            0 <= i < old(rows)@.len() ==> {
                &&& final(rows)@[i] == (
                    spec_moved(old(rows)@[i].0, old(rows)@[i].1 as int),
                    old(rows)@[i].1,
                )
                &&& pushes@[i] == spec_movement(old(rows)@[i].0, old(rows)@[i].1 as int)
            },
{
    let mut pushes: Vec<Movement> = Vec::new();
    let mut i: usize = 0;
    while i < rows.len()
        invariant
            i <= rows@.len(),
            rows@.len() == old(rows)@.len(),
            pushes@.len() == i,
            forall|j: int|
                0 <= j < i ==> {
                    &&& rows@[j] == (
                        spec_moved(old(rows)@[j].0, old(rows)@[j].1 as int),
                        old(rows)@[j].1,
                    )
                    &&& pushes@[j] == spec_movement(old(rows)@[j].0, old(rows)@[j].1 as int)
                },
            forall|j: int| i <= j < rows@.len() ==> rows@[j] == old(rows)@[j],
        decreases rows@.len() - i,
    {
        let mut enemy = rows[i].0;
        let y = rows[i].1;
        let push = move_enemy(&mut enemy, y);
        rows.set(i, (enemy, y));
        pushes.push(push);
        i += 1;
    }
    pushes
}

/// The enemy in another state.
pub open spec fn with_state(enemy: Enemy, state: EnemyState) -> Enemy {
    Enemy { state, start_loc: enemy.start_loc, move_mod: enemy.move_mod }
}

/// Whether a tick can take the row `before` to the row `after` with the
/// push `push`: the enemy goes to some state that can follow its own, and
/// then moves as that state has it; its height is as before.
pub open spec fn ticked(before: (Enemy, i64), after: (Enemy, i64), push: Movement) -> bool {
    exists|state: EnemyState|
        {
            &&& #[trigger] can_follow(before.0.state, state)
            &&& after == (spec_moved(with_state(before.0, state), before.1 as int), before.1)
            &&& push == spec_movement(with_state(before.0, state), before.1 as int)
        }
}

/// One tick of the enemies, in the order in which its two steps run: first
/// chance moves each enemy on from its state, then each enemy moves as its
/// new state has it. Each row holds an enemy and the height it stands at.
/// Returns the push for each enemy, in order.
pub fn tick_enemies(rows: &mut Vec<(Enemy, i64)>) -> (pushes: Vec<Movement>)
    ensures
        final(rows)@.len() == old(rows)@.len(),
        pushes@.len() == old(rows)@.len(),
        forall|i: int|
            0 <= i < old(rows)@.len() ==> ticked(
                old(rows)@[i],
                #[trigger] final(rows)@[i],
                pushes@[i],
            ),
{
    let mut enemies: Vec<Enemy> = Vec::new();
    let mut i: usize = 0;
    while i < rows.len()
        invariant
            i <= rows@.len(),
            rows@ == old(rows)@,
            enemies@.len() == i,
            forall|j: int| 0 <= j < i ==> enemies@[j] == rows@[j].0,
        decreases rows@.len() - i,
    {
        enemies.push(rows[i].0);
        i += 1;
    }
    rand_update_enemy_state(&mut enemies);
    let mut k: usize = 0;
    while k < rows.len()
        invariant
            k <= rows@.len(),
            rows@.len() == old(rows)@.len(),
            enemies@.len() == rows@.len(),
            forall|j: int| 0 <= j < k ==> rows@[j] == (enemies@[j], old(rows)@[j].1),
            forall|j: int| k <= j < rows@.len() ==> rows@[j] == old(rows)@[j],
        decreases rows@.len() - k,
    {
        let y = rows[k].1;
        rows.set(k, (enemies[k], y));
        k += 1;
    }
    let ghost changed = rows@;
    let pushes = move_down(rows);
    proof {
        assert forall|i: int| 0 <= i < old(rows)@.len() implies ticked(
            old(rows)@[i],
            #[trigger] rows@[i],
            pushes@[i],
        ) by {
            let state = enemies@[i].state;
            assert(changed[i] == (enemies@[i], old(rows)@[i].1));
            assert(enemies@[i] == with_state(old(rows)@[i].0, state));
            assert(can_follow(old(rows)@[i].0.state, state));
        }
    }
    pushes
}

/// A patrol turns round at its two bounds and nowhere between them: at its
/// start or above it goes down, more than `PATROL_RANGE` below its start it
/// goes up, and anywhere between it keeps the way it went.
pub proof fn lemma_patrol_turns_at_bounds(enemy: Enemy, y: int)
    requires
        enemy.state == EnemyState::Patrol,
    ensures
        y >= enemy.start_loc.y ==> spec_moved(enemy, y).move_mod == -1,
        y < enemy.start_loc.y - PATROL_RANGE ==> spec_moved(enemy, y).move_mod == 1,
        enemy.start_loc.y - PATROL_RANGE <= y < enemy.start_loc.y ==> spec_moved(enemy, y).move_mod
            == enemy.move_mod,
        spec_movement(enemy, y) == Movement::Vertical(spec_moved(enemy, y).move_mod),
{
}

/// What is put into the world for a new enemy.
#[derive(Clone, Copy, Debug, PartialEq, Eq, Structural)]
pub struct EnemyBundle {
    pub translation: WorldPoint,
    pub enemy: Enemy,
    pub creature: Creature,
    pub layers: Layers,
    pub last_direction: LastMovementDirection,
    /// Half the width and half the height of the enemy's body.
    pub half_extents: Extent,
}

/// The enemy that a spawn point at `at` puts into the world: idle, facing
/// down, its patrol going down, at the depth of creatures.
pub open spec fn spec_spawn_enemy(at: WorldPoint) -> EnemyBundle {
    let place = WorldPoint { x: at.x, y: at.y, z: CREATURE_DEPTH };
    EnemyBundle {
        translation: place,
        enemy: Enemy { state: EnemyState::Idle, start_loc: place, move_mod: -1i8 },
        creature: Creature,
        layers: Layers { groups: 4, masks: 11 },
        last_direction: LastMovementDirection(MovementDirection::Down),
        half_extents: Extent { width: 20, height: 28 },
    }
}

/// The enemy that a spawn point at `at` puts into the world.
pub fn spawn_enemy(at: &WorldPoint) -> (bundle: EnemyBundle)
    ensures
        bundle == spec_spawn_enemy(*at),
        spec_enemy_layers(bundle.layers),
{
    let place = WorldPoint { x: at.x, y: at.y, z: CREATURE_DEPTH };
    EnemyBundle {
        translation: place,
        enemy: Enemy { state: EnemyState::Idle, start_loc: place, move_mod: -1 },
        creature: Creature,
        layers: enemy_layers(),
        last_direction: LastMovementDirection(MovementDirection::Down),
        half_extents: Extent { width: 20, height: 28 },
    }
}

} // verus!
