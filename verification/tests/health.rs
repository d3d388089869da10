use illusion_of_security::health::{
    all_rows_fit, despawn_if_zero_health, drain_health_if_fits, insert_health_to_creatures,
    on_damage_drain_health, resolve_damage, row_fits, Damaged, Health, HealthRow,
};

fn creature(entity: u64, value: i32) -> HealthRow {
    HealthRow { entity, health: Some(Health { max: 100, value }), changed: false }
}

#[test]
fn default_health_is_full_at_100() {
    assert_eq!(Health::default(), Health { max: 100, value: 100 });
    assert!(!Health::default().is_dead());
}

#[test]
fn dead_is_zero_or_below() {
    assert!(Health { max: 100, value: 0 }.is_dead());
    assert!(Health { max: 100, value: -20 }.is_dead());
    assert!(!Health { max: 100, value: 1 }.is_dead());
}

#[test]
fn creatures_without_health_get_it_once() {
    let mut rows = vec![
        HealthRow { entity: 1, health: None, changed: false },
        creature(2, 40),
        HealthRow { entity: 3, health: None, changed: false },
    ];
    assert_eq!(insert_health_to_creatures(&mut rows), 2);
    assert_eq!(rows[0].health, Some(Health { max: 100, value: 100 }));
    assert_eq!(rows[1], creature(2, 40));
    assert_eq!(rows[2].health, Some(Health { max: 100, value: 100 }));
    let snapshot = rows.clone();
    assert_eq!(insert_health_to_creatures(&mut rows), 0);
    assert_eq!(rows, snapshot);
}

#[test]
fn damage_of_30_leaves_70() {
    let mut rows = vec![creature(1, 100)];
    on_damage_drain_health(&vec![Damaged { damage: 30, entity: 1 }], &mut rows);
    assert_eq!(rows[0].health, Some(Health { max: 100, value: 70 }));
    assert!(rows[0].changed);
    assert!(despawn_if_zero_health(&mut rows).is_empty());
    assert_eq!(rows, vec![creature(1, 70)]);
}

#[test]
fn two_hits_of_60_in_one_tick_despawn() {
    let mut rows = vec![creature(1, 100), creature(2, 100)];
    let events = vec![Damaged { damage: 60, entity: 1 }, Damaged { damage: 60, entity: 1 }];
    on_damage_drain_health(&events, &mut rows);
    assert_eq!(rows[0].health, Some(Health { max: 100, value: -20 }));
    assert_eq!(rows[1], creature(2, 100));
    assert_eq!(despawn_if_zero_health(&mut rows), vec![1]);
    assert_eq!(rows, vec![creature(2, 100)]);
}

#[test]
fn damage_is_summed_per_target() {
    let mut rows = vec![creature(1, 100), creature(2, 50), creature(3, 10)];
    let events = vec![
        Damaged { damage: 10, entity: 2 },
        Damaged { damage: 5, entity: 1 },
        Damaged { damage: 15, entity: 2 },
        Damaged { damage: -4, entity: 1 },
        Damaged { damage: 0, entity: 3 },
    ];
    on_damage_drain_health(&events, &mut rows);
    assert_eq!(rows[0].health.unwrap().value, 99);
    assert_eq!(rows[1].health.unwrap().value, 25);
    assert_eq!(rows[2].health.unwrap().value, 10);
    assert!(rows[0].changed && rows[1].changed && rows[2].changed);
    assert_eq!(rows[0].health.unwrap().max, 100);
}

#[test]
fn damage_to_entity_without_health_is_dropped() {
    let mut rows = vec![HealthRow { entity: 1, health: None, changed: false }, creature(2, 100)];
    let events = vec![Damaged { damage: 10, entity: 1 }, Damaged { damage: 10, entity: 99 }];
    on_damage_drain_health(&events, &mut rows);
    assert_eq!(rows[0], HealthRow { entity: 1, health: None, changed: false });
    assert_eq!(rows[1], creature(2, 100));
}

#[test]
fn sweep_looks_only_at_health_that_was_touched() {
    let mut rows = vec![
        creature(1, 0),
        HealthRow { entity: 2, health: Some(Health { max: 100, value: 0 }), changed: true },
        HealthRow { entity: 3, health: Some(Health { max: 100, value: 1 }), changed: true },
        HealthRow { entity: 4, health: Some(Health { max: 100, value: -5 }), changed: true },
        HealthRow { entity: 5, health: None, changed: true },
    ];
    assert_eq!(despawn_if_zero_health(&mut rows), vec![2, 4]);
    assert_eq!(
        rows,
        vec![
            creature(1, 0),
            creature(3, 1),
            HealthRow { entity: 5, health: None, changed: false },
        ]
    );
}

#[test]
fn exactly_lethal_damage_despawns() {
    let mut rows = vec![creature(1, 100)];
    let mut events = vec![Damaged { damage: 100, entity: 1 }];
    let gone = resolve_damage(&mut events, &mut rows);
    assert_eq!(gone, Some(vec![1]));
    assert!(rows.is_empty());
    assert!(events.is_empty());
}

#[test]
fn resolve_applies_all_events_before_the_sweep() {
    let mut rows = vec![creature(1, 100)];
    let mut events =
        vec![Damaged { damage: 150, entity: 1 }, Damaged { damage: -100, entity: 1 }];
    assert_eq!(resolve_damage(&mut events, &mut rows), Some(vec![]));
    assert_eq!(rows, vec![creature(1, 50)]);
    assert!(events.is_empty());
    assert_eq!(resolve_damage(&mut events, &mut rows), Some(vec![]));
    assert_eq!(rows, vec![creature(1, 50)]);
}

#[test]
fn health_that_would_not_fit_is_left_alone() {
    let row = creature(1, i32::MIN + 5);
    let mut events = vec![Damaged { damage: 10, entity: 1 }];
    assert!(!row_fits(&row, &events));
    assert!(row_fits(&row, &vec![Damaged { damage: 5, entity: 1 }]));
    assert!(row_fits(&row, &vec![Damaged { damage: 10, entity: 2 }]));
    let mut rows = vec![creature(2, 100), row];
    assert!(!all_rows_fit(&events, &rows));
    assert!(!drain_health_if_fits(&events, &mut rows));
    assert_eq!(rows, vec![creature(2, 100), row]);
    assert_eq!(resolve_damage(&mut events, &mut rows), None);
    assert_eq!(rows, vec![creature(2, 100), row]);
    assert_eq!(events, vec![Damaged { damage: 10, entity: 1 }]);
}

#[test]
fn fit_is_asked_of_every_step_not_of_the_sum() {
    let row = creature(1, i32::MAX);
    let events = vec![Damaged { damage: -1, entity: 1 }, Damaged { damage: 1, entity: 1 }];
    assert!(!row_fits(&row, &events));
    let events = vec![Damaged { damage: 1, entity: 1 }, Damaged { damage: -1, entity: 1 }];
    assert!(row_fits(&row, &events));
    let mut rows = vec![row];
    assert!(drain_health_if_fits(&events, &mut rows));
    assert_eq!(rows[0].health.unwrap().value, i32::MAX);
    assert!(row_fits(&HealthRow { entity: 1, health: None, changed: false }, &events));
}

#[test]
fn damage_that_is_not_negative_only_lowers_health() {
    let damages = [0, 1, 30, 60, 100, 250];
    for first in damages {
        for second in damages {
            let mut rows = vec![creature(1, 100), creature(2, 40)];
            let events = vec![
                Damaged { damage: first, entity: 1 },
                Damaged { damage: second, entity: 1 },
                Damaged { damage: second, entity: 2 },
            ];
            on_damage_drain_health(&events, &mut rows);
            assert_eq!(rows[0].health.unwrap().value, 100 - first - second);
            assert_eq!(rows[1].health.unwrap().value, 40 - second);
            assert!(rows[0].health.unwrap().value <= 100);
            assert!(rows[1].health.unwrap().value <= 40);
        }
    }
}
