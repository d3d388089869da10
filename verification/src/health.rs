//! Health of creatures: who has it, how damage drains it, and who is taken
//! out of the world when it is spent.

use vstd::prelude::*;

verus! {

/// Marks an entity as a living actor, which has health.
#[derive(Clone, Copy, Debug, PartialEq, Eq, Structural)]
pub struct Creature;

/// The health of one entity. Damage may take `value` below zero.
#[derive(Clone, Copy, Debug, PartialEq, Eq, Structural)]
pub struct Health {
    pub max: i32,
    pub value: i32,
}

impl Default for Health {
    /// Full health of 100.
    fn default() -> (health: Health)
        ensures
            health == (Health { max: 100, value: 100 }),
    {
        Health { max: 100, value: 100 }
    }
}

impl Health {
    /// Whether the health is spent.
    pub open spec fn spec_is_dead(self) -> bool {
        self.value <= 0
    }

    /// Whether the health is spent: alive is above zero, dead is zero or
    /// below.
    pub fn is_dead(&self) -> (dead: bool)
        ensures
            dead == self.spec_is_dead(),
    {
        self.value <= 0
    }
}

/// The message that an entity has taken damage.
#[derive(Clone, Copy, Debug, PartialEq, Eq, Structural)]
pub struct Damaged {
    pub damage: i32,
    pub entity: u64,
}

/// One creature in the table of creatures: which entity it is, its health
/// once it has been given one, and whether its health was touched in this
/// tick.
#[derive(Clone, Copy, Debug, PartialEq, Eq, Structural)]
pub struct HealthRow {
    pub entity: u64,
    pub health: Option<Health>,
    pub changed: bool,
}

/// The sum of the damage that `events` deal to `entity`.
pub open spec fn total_damage(events: Seq<Damaged>, entity: u64) -> int
    decreases events.len(),
{
    if events.len() == 0 {
        0
    } else {
        total_damage(events.drop_last(), entity) + if events.last().entity == entity {
            events.last().damage as int
        } else {
            0
        }
    }
}

/// How many of `events` are aimed at `entity`.
pub open spec fn times_hit(events: Seq<Damaged>, entity: u64) -> nat
    decreases events.len(),
{
    if events.len() == 0 {
        0
    } else {
        times_hit(events.drop_last(), entity) + if events.last().entity == entity {
            1nat
        } else {
            0nat
        }
    }
}

/// A creature given full health where it had none; one that has health stays
/// as it is.
pub open spec fn with_health(row: HealthRow) -> HealthRow {
    match row.health {
        Some(_) => row,
        None => HealthRow {
            entity: row.entity,
            health: Some(Health { max: 100, value: 100 }),
            changed: true,
        },
    }
}

/// A creature after `events`: where it has health, all damage aimed at it is
/// taken off, with no floor at zero, and the health counts as touched if any
/// event was aimed at it. One without health stays as it is.
pub open spec fn drained(row: HealthRow, events: Seq<Damaged>) -> HealthRow {
    match row.health {
        Some(h) => HealthRow {
            entity: row.entity,
            health: Some(
                Health { max: h.max, value: (h.value - total_damage(events, row.entity)) as i32 },
            ),
            changed: row.changed || times_hit(events, row.entity) > 0,
        },
        None => row,
    }
}

/// Whether the health of `row` stays within 32 bits after each of `events`
/// in turn.
pub open spec fn damage_fits(row: HealthRow, events: Seq<Damaged>) -> bool {
    row.health matches Some(h) ==> forall|k: int|
        0 <= k <= events.len() ==> i32::MIN <= h.value - #[trigger] total_damage(
            events.take(k),
            row.entity,
        ) <= i32::MAX
}

/// Whether a creature is taken out of the world at the end of a tick: its
/// health was touched in the tick and is spent.
pub open spec fn is_spent(row: HealthRow) -> bool {
    row.changed && (row.health matches Some(h) && h.value <= 0)
}

/// The creatures that stay after the sweep, in order, their health no longer
/// counted as touched.
pub open spec fn survivors(rows: Seq<HealthRow>) -> Seq<HealthRow>
    decreases rows.len(),
{
    if rows.len() == 0 {
        Seq::empty()
    } else if is_spent(rows.last()) {
        survivors(rows.drop_last())
    } else {
        survivors(rows.drop_last()).push(
            HealthRow { entity: rows.last().entity, health: rows.last().health, changed: false },
        )
    }
}

/// The entities that the sweep takes out of the world, in order.
pub open spec fn despawned(rows: Seq<HealthRow>) -> Seq<u64>
    decreases rows.len(),
{
    if rows.len() == 0 {
        Seq::empty()
    } else if is_spent(rows.last()) {
        despawned(rows.drop_last()).push(rows.last().entity)
    } else {
        despawned(rows.drop_last())
    }
}

/// How many of the creatures have no health.
pub open spec fn without_health(rows: Seq<HealthRow>) -> nat
    decreases rows.len(),
{
    if rows.len() == 0 {
        0
    } else {
        without_health(rows.drop_last()) + if rows.last().health is None {
            1nat
        } else {
            0nat
        }
    }
}

/// Gives full health to each creature that has none, and leaves the health
/// of every other as it is. Returns how many it gave health to.
pub fn insert_health_to_creatures(rows: &mut Vec<HealthRow>) -> (given: usize)
    ensures
        final(rows)@.len() == old(rows)@.len(),
        forall|i: int| 0 <= i < old(rows)@.len() ==> final(rows)@[i] == with_health(old(rows)@[i]),
        given == without_health(old(rows)@),
{
    let mut given: usize = 0;
    let mut i: usize = 0;
    while i < rows.len()
        invariant
            i <= rows@.len(),
            given <= i,
            given == without_health(old(rows)@.take(i as int)),
            rows@.len() == old(rows)@.len(),
            forall|j: int| 0 <= j < i ==> rows@[j] == with_health(old(rows)@[j]),
            forall|j: int| i <= j < rows@.len() ==> rows@[j] == old(rows)@[j],
        decreases rows@.len() - i,
    {
        proof {
            assert(old(rows)@.take(i + 1).drop_last() =~= old(rows)@.take(i as int));
        }
        let row = rows[i];
        if row.health.is_none() {
            rows.set(
                i,
                HealthRow { entity: row.entity, health: Some(Health::default()), changed: true },
            );
            given += 1;
        }
        i += 1;
    }
    assert(old(rows)@.take(i as int) =~= old(rows)@);
    given
}

/// One more event adds its damage for the entity it is aimed at.
pub proof fn lemma_damage_step(events: Seq<Damaged>, k: int, entity: u64)
    requires
        0 <= k < events.len(),
    ensures
        total_damage(events.take(k + 1), entity) == total_damage(events.take(k), entity) + (
        if events[k].entity == entity {
            events[k].damage as int
        } else {
            0
        }),
        times_hit(events.take(k + 1), entity) == times_hit(events.take(k), entity) + (
        if events[k].entity == entity {
            1nat
        } else {
            0nat
        }),
{
    assert(events.take(k + 1).drop_last() =~= events.take(k));
}

/// Takes the damage of each event off the health of the entity it is aimed
/// at. An event aimed at an entity without health does nothing.
pub fn on_damage_drain_health(events: &Vec<Damaged>, rows: &mut Vec<HealthRow>)
    requires
        forall|i: int| 0 <= i < old(rows)@.len() ==> damage_fits(old(rows)@[i], events@),
    ensures
        final(rows)@.len() == old(rows)@.len(),
        forall|i: int|
            0 <= i < old(rows)@.len() ==> final(rows)@[i] == drained(old(rows)@[i], events@),
{
    let mut k: usize = 0;
    while k < events.len()
        invariant
            k <= events@.len(),
            rows@.len() == old(rows)@.len(),
            forall|i: int| 0 <= i < old(rows)@.len() ==> damage_fits(old(rows)@[i], events@),
            forall|i: int|
                0 <= i < rows@.len() ==> rows@[i] == drained(old(rows)@[i], events@.take(k as int)),
        decreases events@.len() - k,
    {
        let event = events[k];
        let mut j: usize = 0;
        while j < rows.len()
            invariant
                k < events@.len(),
                event == events@[k as int],
                j <= rows@.len(),
                rows@.len() == old(rows)@.len(),
                forall|i: int| 0 <= i < old(rows)@.len() ==> damage_fits(old(rows)@[i], events@),
                forall|i: int|
                    0 <= i < j ==> rows@[i] == drained(old(rows)@[i], events@.take(k + 1)),
                forall|i: int|
                    j <= i < rows@.len() ==> rows@[i] == drained(
                        old(rows)@[i],
                        events@.take(k as int),
                    ),
            decreases rows@.len() - j,
        {
            let row = rows[j];
            proof {
                lemma_damage_step(events@, k as int, row.entity);
                let first = old(rows)@[j as int];
                assert(damage_fits(first, events@));
                if first.health is Some {
                    let h = first.health->Some_0;
                    assert(i32::MIN <= h.value - total_damage(events@.take(k as int), first.entity)
                        <= i32::MAX);
                    assert(i32::MIN <= h.value - total_damage(events@.take(k + 1), first.entity)
                        <= i32::MAX);
                }
            }
            match row.health {
                Some(h) => {
                    if row.entity == event.entity {
                        rows.set(
                            j,
                            HealthRow {
                                entity: row.entity,
                                health: Some(Health { max: h.max, value: h.value - event.damage }),
                                changed: true,
                            },
                        );
                    }
                },
                None => {},
            }
            j += 1;
        }
        k += 1;
    }
    assert(events@.take(k as int) =~= events@);
}

/// Takes out of the table each creature whose health was touched in this
/// tick and is spent, and returns their entities, in order. The health of
/// those that stay no longer counts as touched.
pub fn despawn_if_zero_health(rows: &mut Vec<HealthRow>) -> (gone: Vec<u64>)
    ensures
        final(rows)@ == survivors(old(rows)@),
        gone@ == despawned(old(rows)@),
{
    let mut kept: Vec<HealthRow> = Vec::new();
    let mut gone: Vec<u64> = Vec::new();
    let mut i: usize = 0;
    while i < rows.len()
        invariant
            i <= rows@.len(),
            rows@ == old(rows)@,
            kept@ == survivors(rows@.take(i as int)),
            gone@ == despawned(rows@.take(i as int)),
        decreases rows@.len() - i,
    {
        let row = rows[i];
        proof {
            assert(rows@.take(i + 1).drop_last() =~= rows@.take(i as int));
        }
        let spent = row.changed && match row.health {
            Some(h) => h.is_dead(),
            None => false,
        };
        if spent {
            gone.push(row.entity);
        } else {
            kept.push(HealthRow { entity: row.entity, health: row.health, changed: false });
        }
        i += 1;
    }
    assert(rows@.take(i as int) =~= rows@);
    *rows = kept;
    gone
}

/// Whether the health of one creature stays within 32 bits after each of
/// the events in turn.
pub fn row_fits(row: &HealthRow, events: &Vec<Damaged>) -> (fits: bool)
    ensures
        fits == damage_fits(*row, events@),
{
    match row.health {
        None => true,
        Some(h) => {
            let mut value: i64 = h.value as i64;
            let mut k: usize = 0;
            proof {
                assert(events@.take(0) =~= Seq::<Damaged>::empty());
            }
            while k < events.len()
                invariant
                    k <= events@.len(),
                    row.health == Some(h),
                    value == h.value - total_damage(events@.take(k as int), row.entity),
                    forall|j: int|
                        0 <= j <= k ==> i32::MIN <= h.value - #[trigger] total_damage(
                            events@.take(j),
                            row.entity,
                        ) <= i32::MAX,
                decreases events@.len() - k,
            {
                proof {
                    lemma_damage_step(events@, k as int, row.entity);
                }
                if events[k].entity == row.entity {
                    value = value - events[k].damage as i64;
                    if value < i32::MIN as i64 || value > i32::MAX as i64 {
                        return false;
                    }
                }
                k += 1;
            }
            true
        },
    }
}

/// Whether the health of every creature stays within 32 bits after each of
/// the events in turn.
pub fn all_rows_fit(events: &Vec<Damaged>, rows: &Vec<HealthRow>) -> (fits: bool)
    ensures
        fits == (forall|i: int| 0 <= i < rows@.len() ==> damage_fits(rows@[i], events@)),
{
    let mut i: usize = 0;
    while i < rows.len()
        invariant
            i <= rows@.len(),
            forall|j: int| 0 <= j < i ==> damage_fits(rows@[j], events@),
        decreases rows@.len() - i,
    {
        if !row_fits(&rows[i], events) {
            return false;
        }
        i += 1;
    }
    true
}

/// Takes the damage of each event off the health of the entity it is aimed
/// at, where the health of every creature stays within 32 bits throughout.
/// Where it would not, nothing is changed and `false` is returned.
pub fn drain_health_if_fits(events: &Vec<Damaged>, rows: &mut Vec<HealthRow>) -> (done: bool)
    ensures
        done == (forall|i: int|
            0 <= i < old(rows)@.len() ==> damage_fits(old(rows)@[i], events@)),
        final(rows)@.len() == old(rows)@.len(),
        done ==> forall|i: int|
            0 <= i < old(rows)@.len() ==> final(rows)@[i] == drained(old(rows)@[i], events@),
        !done ==> final(rows)@ == old(rows)@,
{
    if all_rows_fit(events, rows) {
        on_damage_drain_health(events, rows);
        true
    } else {
        false
    }
}

/// The creatures after the damage of a tick was taken off their health.
pub open spec fn drained_all(rows: Seq<HealthRow>, events: Seq<Damaged>) -> Seq<HealthRow> {
    Seq::new(rows.len(), |i: int| drained(rows[i], events))
}

/// Damage that is not below zero never adds up to less than zero.
pub proof fn lemma_total_damage_is_not_negative(events: Seq<Damaged>, entity: u64)
    requires
        forall|k: int| 0 <= k < events.len() ==> (#[trigger] events[k]).damage >= 0,
    ensures
        total_damage(events, entity) >= 0,
    decreases events.len(),
{
    if events.len() > 0 {
        let front = events.drop_last();
        assert forall|k: int| 0 <= k < front.len() implies (#[trigger] front[k]).damage >= 0 by {
            assert(front[k] == events[k]);
        }
        lemma_total_damage_is_not_negative(front, entity);
        assert(events.last() == events[events.len() - 1]);
    }
}

/// Damage only ever lowers health: where no event deals damage below zero
/// and the health stays within 32 bits, a creature has no more health
/// after the events than before, and exactly as much less as the damage
/// aimed at it adds up to.
pub proof fn lemma_damage_never_heals(row: HealthRow, events: Seq<Damaged>)
    requires
        forall|k: int| 0 <= k < events.len() ==> (#[trigger] events[k]).damage >= 0,
        damage_fits(row, events),
    ensures
        row.health matches Some(before) ==> {
            &&& drained(row, events).health matches Some(after)
            &&& after.value == before.value - total_damage(events, row.entity)
            &&& after.value <= before.value
            &&& after.max == before.max
        },
        row.health is None ==> drained(row, events) == row,
{
    lemma_total_damage_is_not_negative(events, row.entity);
    assert(events.take(events.len() as int) =~= events);
}

/// Giving health a second time changes nothing.
pub proof fn lemma_health_is_given_once(row: HealthRow)
    ensures
        with_health(with_health(row)) == with_health(row),
        with_health(row).health is Some,
        row.health is Some ==> with_health(row) == row,
{
}

/// The damage of one tick from first to last: all events are taken off the
/// health of the entities they are aimed at, and only then is each creature
/// whose health was touched and is spent taken out of the table. The events
/// are used up: none is left for the next tick. Returns the entities taken
/// out. Where the health of some creature would not stay within 32 bits,
/// nothing is changed and `None` is returned.
pub fn resolve_damage(events: &mut Vec<Damaged>, rows: &mut Vec<HealthRow>) -> (gone: Option<
    Vec<u64>,
>)
    ensures
        gone is Some == (forall|i: int|
            0 <= i < old(rows)@.len() ==> damage_fits(old(rows)@[i], old(events)@)),
        gone matches Some(ids) ==> {
            &&& ids@ == despawned(drained_all(old(rows)@, old(events)@))
            &&& final(rows)@ == survivors(drained_all(old(rows)@, old(events)@))
            &&& final(events)@.len() == 0
        },
        gone is None ==> final(rows)@ == old(rows)@ && final(events)@ == old(events)@,
{
    if drain_health_if_fits(events, rows) {
        assert(rows@ =~= drained_all(old(rows)@, old(events)@));
        events.clear();
        Some(despawn_if_zero_health(rows))
    } else {
        None
    }
}

} // verus!
