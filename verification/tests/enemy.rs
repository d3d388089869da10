use illusion_of_security::enemy::{
    change_chance, move_down, move_enemy, needs_bucket, next_state, rand_update_enemy_state,
    sample_state, tick_enemies,
    spawn_enemy, Enemy, EnemyState, Movement, BUSY_CHANCE, CREATURE_DEPTH, FRICTION_PERCENT,
    IDLE_CHANCE, MAX_SPEED, MIN_SPEED_PERCENT, MOVE_SPEED, PATROL_RANGE, STATE_BUCKETS,
};
use illusion_of_security::map::WorldPoint;

fn enemy(state: EnemyState, start_y: i64, move_mod: i8) -> Enemy {
    Enemy { state, start_loc: WorldPoint { x: 0, y: start_y, z: 100 }, move_mod }
}

#[test]
fn constants_of_the_rules() {
    assert_eq!(IDLE_CHANCE, 33);
    assert_eq!(BUSY_CHANCE, 66);
    assert_eq!(STATE_BUCKETS, 4);
    assert_eq!(PATROL_RANGE, 200);
    assert_eq!(MOVE_SPEED, 10);
    assert_eq!(MAX_SPEED, 100);
    assert_eq!(FRICTION_PERCENT, 95);
    assert_eq!(MIN_SPEED_PERCENT, 1);
    assert_eq!(CREATURE_DEPTH, 100);
}

#[test]
fn default_enemy_is_idle() {
    assert_eq!(
        Enemy::default(),
        Enemy { state: EnemyState::Idle, start_loc: WorldPoint { x: 0, y: 0, z: 0 }, move_mod: 0 }
    );
}

#[test]
fn buckets_map_to_states() {
    assert_eq!(sample_state(0), EnemyState::Idle);
    assert_eq!(sample_state(1), EnemyState::Patrol);
    assert_eq!(sample_state(2), EnemyState::Wander);
    assert_eq!(sample_state(3), EnemyState::Wander);
}

#[test]
fn wander_has_twice_the_weight_of_idle_and_patrol() {
    let mut idle = 0;
    let mut patrol = 0;
    let mut wander = 0;
    let mut attack = 0;
    for b in 0..STATE_BUCKETS {
        match sample_state(b) {
            EnemyState::Idle => idle += 1,
            EnemyState::Patrol => patrol += 1,
            EnemyState::Wander => wander += 1,
            EnemyState::Attack => attack += 1,
        }
    }
    assert_eq!((idle, patrol, wander, attack), (1, 1, 2, 0));
}

#[test]
fn chance_bound_of_each_state() {
    assert_eq!(change_chance(EnemyState::Idle), Some(33));
    assert_eq!(change_chance(EnemyState::Patrol), Some(66));
    assert_eq!(change_chance(EnemyState::Wander), Some(66));
    assert_eq!(change_chance(EnemyState::Attack), None);
}

#[test]
fn idle_leaves_only_on_a_draw_of_zero() {
    assert_eq!(next_state(EnemyState::Idle, 0, 0), EnemyState::Idle);
    assert_eq!(next_state(EnemyState::Idle, 0, 1), EnemyState::Patrol);
    assert_eq!(next_state(EnemyState::Idle, 0, 2), EnemyState::Wander);
    assert_eq!(next_state(EnemyState::Idle, 0, 3), EnemyState::Wander);
    for chance in 1..IDLE_CHANCE {
        for bucket in 0..STATE_BUCKETS {
            assert_eq!(next_state(EnemyState::Idle, chance, bucket), EnemyState::Idle);
        }
    }
}

#[test]
fn patrol_and_wander_go_idle_on_a_draw_of_zero() {
    for bucket in 0..STATE_BUCKETS {
        assert_eq!(next_state(EnemyState::Patrol, 0, bucket), EnemyState::Idle);
        assert_eq!(next_state(EnemyState::Wander, 0, bucket), EnemyState::Idle);
    }
    for chance in 1..BUSY_CHANCE {
        assert_eq!(next_state(EnemyState::Patrol, chance, 0), EnemyState::Patrol);
        assert_eq!(next_state(EnemyState::Wander, chance, 0), EnemyState::Wander);
    }
}

#[test]
fn attack_is_never_left() {
    for chance in 0..BUSY_CHANCE {
        for bucket in 0..STATE_BUCKETS {
            assert_eq!(next_state(EnemyState::Attack, chance, bucket), EnemyState::Attack);
        }
    }
}

#[test]
fn random_update_keeps_to_the_transitions() {
    let mut enemies = vec![
        enemy(EnemyState::Idle, 5, -1),
        enemy(EnemyState::Patrol, 6, 1),
        enemy(EnemyState::Wander, 7, -1),
        enemy(EnemyState::Attack, 8, 1),
    ];
    for _ in 0..2000 {
        let before = enemies.clone();
        rand_update_enemy_state(&mut enemies);
        assert_eq!(enemies.len(), 4);
        for (old, new) in before.iter().zip(enemies.iter()) {
            assert_eq!(old.start_loc, new.start_loc);
            assert_eq!(old.move_mod, new.move_mod);
            let allowed = match old.state {
                EnemyState::Idle => new.state != EnemyState::Attack,
                EnemyState::Patrol => {
                    new.state == EnemyState::Patrol || new.state == EnemyState::Idle
                },
                EnemyState::Wander => {
                    new.state == EnemyState::Wander || new.state == EnemyState::Idle
                },
                EnemyState::Attack => new.state == EnemyState::Attack,
            };
            assert!(allowed, "{:?} -> {:?}", old.state, new.state);
        }
    }
    assert_eq!(enemies[3].state, EnemyState::Attack);
}

#[test]
fn random_update_does_change_states() {
    let mut left_idle = false;
    let mut left_patrol = false;
    let mut left_wander = false;
    for _ in 0..20000 {
        let mut enemies = vec![
            enemy(EnemyState::Idle, 0, -1),
            enemy(EnemyState::Patrol, 0, -1),
            enemy(EnemyState::Wander, 0, -1),
        ];
        rand_update_enemy_state(&mut enemies);
        left_idle = left_idle || enemies[0].state != EnemyState::Idle;
        left_patrol = left_patrol || enemies[1].state == EnemyState::Idle;
        left_wander = left_wander || enemies[2].state == EnemyState::Idle;
    }
    assert!(left_idle);
    assert!(left_patrol);
    assert!(left_wander);
}

#[test]
fn random_update_keeps_most_states() {
    let mut stayed = 0;
    let rounds = 20000;
    for _ in 0..rounds {
        let mut enemies = vec![enemy(EnemyState::Patrol, 0, -1)];
        rand_update_enemy_state(&mut enemies);
        if enemies[0].state == EnemyState::Patrol {
            stayed += 1;
        }
    }
    assert!(stayed > rounds * 9 / 10);
}

#[test]
fn patrol_started_at_zero_turns_at_zero_and_below_minus_200() {
    let mut e = enemy(EnemyState::Patrol, 0, -1);
    assert_eq!(move_enemy(&mut e, 0), Movement::Vertical(-1));
    assert_eq!(move_enemy(&mut e, -1), Movement::Vertical(-1));
    assert_eq!(move_enemy(&mut e, -100), Movement::Vertical(-1));
    assert_eq!(move_enemy(&mut e, -200), Movement::Vertical(-1));
    assert_eq!(e.move_mod, -1);
    assert_eq!(move_enemy(&mut e, -201), Movement::Vertical(1));
    assert_eq!(e.move_mod, 1);
    assert_eq!(move_enemy(&mut e, -200), Movement::Vertical(1));
    assert_eq!(move_enemy(&mut e, -100), Movement::Vertical(1));
    assert_eq!(move_enemy(&mut e, -1), Movement::Vertical(1));
    assert_eq!(e.move_mod, 1);
    assert_eq!(move_enemy(&mut e, 0), Movement::Vertical(-1));
    assert_eq!(e.move_mod, -1);
    assert_eq!(move_enemy(&mut e, 35), Movement::Vertical(-1));
    assert_eq!(e.state, EnemyState::Patrol);
    assert_eq!(e.start_loc, WorldPoint { x: 0, y: 0, z: 100 });
}

#[test]
fn patrol_bounds_follow_the_start() {
    let mut e = enemy(EnemyState::Patrol, 1000, 1);
    assert_eq!(move_enemy(&mut e, 999), Movement::Vertical(1));
    assert_eq!(move_enemy(&mut e, 1000), Movement::Vertical(-1));
    assert_eq!(move_enemy(&mut e, 800), Movement::Vertical(-1));
    assert_eq!(move_enemy(&mut e, 799), Movement::Vertical(1));
}

#[test]
fn patrol_at_the_limits_of_64_bits() {
    let mut e = enemy(EnemyState::Patrol, i64::MIN, 1);
    assert_eq!(move_enemy(&mut e, i64::MIN), Movement::Vertical(-1));
    let mut e = enemy(EnemyState::Patrol, i64::MIN + 100, -1);
    assert_eq!(move_enemy(&mut e, i64::MIN), Movement::Vertical(-1));
    let mut e = enemy(EnemyState::Patrol, i64::MAX, -1);
    assert_eq!(move_enemy(&mut e, i64::MAX - 201), Movement::Vertical(1));
}

#[test]
fn other_states_do_not_turn() {
    let mut e = enemy(EnemyState::Idle, 0, -1);
    assert_eq!(move_enemy(&mut e, -500), Movement::Still);
    assert_eq!(e, enemy(EnemyState::Idle, 0, -1));
    let mut e = enemy(EnemyState::Attack, 0, 1);
    assert_eq!(move_enemy(&mut e, 500), Movement::Still);
    assert_eq!(e, enemy(EnemyState::Attack, 0, 1));
    let mut e = enemy(EnemyState::Wander, 0, -1);
    assert_eq!(move_enemy(&mut e, -500), Movement::Random);
    assert_eq!(e, enemy(EnemyState::Wander, 0, -1));
}

#[test]
fn move_down_moves_each_enemy() {
    let mut rows = vec![
        (enemy(EnemyState::Patrol, 0, -1), -300),
        (enemy(EnemyState::Idle, 0, -1), -300),
        (enemy(EnemyState::Wander, 0, 1), 10),
        (enemy(EnemyState::Patrol, 0, 1), 10),
        (enemy(EnemyState::Patrol, 0, 1), -10),
    ];
    let pushes = move_down(&mut rows);
    assert_eq!(
        pushes,
        vec![
            Movement::Vertical(1),
            Movement::Still,
            Movement::Random,
            Movement::Vertical(-1),
            Movement::Vertical(1),
        ]
    );
    assert_eq!(rows[0], (enemy(EnemyState::Patrol, 0, 1), -300));
    assert_eq!(rows[1], (enemy(EnemyState::Idle, 0, -1), -300));
    assert_eq!(rows[2], (enemy(EnemyState::Wander, 0, 1), 10));
    assert_eq!(rows[3], (enemy(EnemyState::Patrol, 0, -1), 10));
    assert_eq!(rows[4], (enemy(EnemyState::Patrol, 0, 1), -10));
}

#[test]
fn spawn_enemy_at_depth_100() {
    let bundle = spawn_enemy(&WorldPoint { x: 3, y: 4, z: 5 });
    assert_eq!(bundle.translation, WorldPoint { x: 3, y: 4, z: 100 });
    assert_eq!(bundle.enemy.start_loc, WorldPoint { x: 3, y: 4, z: 100 });
    assert_eq!(bundle.enemy.state, EnemyState::Idle);
    assert_eq!(bundle.enemy.move_mod, -1);
}

#[test]
fn bucket_is_drawn_only_for_an_idle_enemy_that_leaves() {
    assert!(needs_bucket(EnemyState::Idle, 0));
    assert!(!needs_bucket(EnemyState::Idle, 1));
    assert!(!needs_bucket(EnemyState::Patrol, 0));
    assert!(!needs_bucket(EnemyState::Wander, 0));
    assert!(!needs_bucket(EnemyState::Attack, 0));
}

#[test]
fn tick_changes_state_before_it_moves() {
    for _ in 0..5000 {
        let mut rows = vec![
            (enemy(EnemyState::Idle, 0, -1), -300),
            (enemy(EnemyState::Patrol, 0, -1), -300),
            (enemy(EnemyState::Attack, 0, -1), -300),
        ];
        let pushes = tick_enemies(&mut rows);
        assert_eq!(pushes.len(), 3);
        for ((after, y), push) in rows.iter().zip(pushes.iter()) {
            assert_eq!(*y, -300);
            match after.state {
                EnemyState::Patrol => {
                    assert_eq!(after.move_mod, 1);
                    assert_eq!(*push, Movement::Vertical(1));
                },
                EnemyState::Wander => {
                    assert_eq!(after.move_mod, -1);
                    assert_eq!(*push, Movement::Random);
                },
                _ => {
                    assert_eq!(after.move_mod, -1);
                    assert_eq!(*push, Movement::Still);
                },
            }
        }
        assert_ne!(rows[1].0.state, EnemyState::Wander);
        assert_eq!(rows[2].0.state, EnemyState::Attack);
    }
}
