use shmup_core::enemy::{
    despawn_enemy_bullet, enemy_attack_done, enemy_movement, enemy_state_behavior,
    line_up_bullets_system, move_straight_bullet, spawn_enemy, Enemy, EnemyController, EnemyState,
    LineUpBullets, RingAction, StraightBullet, ENEMY_HEALTH, RING_BULLETS, RING_CADENCE,
    RING_RADIUS, RING_START,
};
use shmup_core::geometry::{Polar, Vec2};
use shmup_core::health::Health;
use shmup_core::level::enemy_on_path;
use shmup_core::timer::{Timer, TimerMode};

const FRAME: u64 = 16_667;

fn units(x: i32, y: i32) -> Vec2 {
    Vec2::new(x * 1000, y * 1000)
}

#[test]
fn controller_from_waypoints_starts_moving() {
    let ctrl = EnemyController::from(vec![units(1, 2), units(3, 4)]);
    assert_eq!(ctrl.state, EnemyState::Moving);
    assert_eq!(ctrl.attack_pos, vec![units(1, 2), units(3, 4)]);
    assert_eq!(EnemyState::default(), EnemyState::Moving);
}

#[test]
fn movement_covers_speed_times_time() {
    let mut pos = units(0, 0);
    let mut ctrl = EnemyController::from(vec![units(300, 400)]);
    assert!(!enemy_movement(&mut pos, &mut ctrl, 1_000_000));
    assert_eq!(pos, Vec2::new(60_000, 80_000));
    assert_eq!(ctrl.attack_pos.len(), 1);
    assert_eq!(ctrl.state, EnemyState::Moving);
}

#[test]
fn movement_of_one_frame_rounds_toward_the_start() {
    let mut pos = units(0, 0);
    let mut ctrl = EnemyController::from(vec![units(300, 400)]);
    enemy_movement(&mut pos, &mut ctrl, FRAME);
    assert_eq!(pos, Vec2::new(999, 1_332));
    let mut back = units(0, 0);
    let mut left = EnemyController::from(vec![units(-300, 400)]);
    enemy_movement(&mut back, &mut left, FRAME);
    assert_eq!(back, Vec2::new(-999, 1_332));
}

#[test]
fn movement_never_overshoots() {
    let target = Vec2::new(-7_777, 123_456);
    let mut pos = Vec2::new(250_000, -90_000);
    let mut ctrl = EnemyController::from(vec![units(0, 0), target]);
    let mut last = pos.distance_squared(&target);
    let mut frames = 0;
    while ctrl.state == EnemyState::Moving {
        let before = pos;
        assert!(!enemy_movement(&mut pos, &mut ctrl, FRAME));
        let now = pos.distance_squared(&target);
        assert!(now < last);
        assert!(pos.x <= before.x && pos.x >= target.x);
        assert!(pos.y >= before.y && pos.y <= target.y);
        last = now;
        frames += 1;
        assert!(frames < 1_000);
    }
    assert_eq!(pos, target);
    assert_eq!(ctrl.attack_pos, vec![units(0, 0)]);
}

#[test]
fn arrival_within_epsilon_snaps_to_the_waypoint() {
    let mut pos = Vec2::new(0, 0);
    let mut ctrl = EnemyController::from(vec![units(9, 9), Vec2::new(50, 50)]);
    assert!(!enemy_movement(&mut pos, &mut ctrl, 0));
    assert_eq!(pos, Vec2::new(50, 50));
    assert_eq!(ctrl.state, EnemyState::Attacking);
    assert_eq!(ctrl.attack_pos, vec![units(9, 9)]);
}

#[test]
fn no_arrival_at_epsilon_without_a_step() {
    let mut pos = Vec2::new(0, 0);
    let mut ctrl = EnemyController::from(vec![Vec2::new(100, 0)]);
    assert!(!enemy_movement(&mut pos, &mut ctrl, 0));
    assert_eq!(pos, Vec2::new(0, 0));
    assert_eq!(ctrl.attack_pos.len(), 1);
}

#[test]
fn arrival_when_one_step_reaches() {
    let mut pos = Vec2::new(0, 0);
    let mut ctrl = EnemyController::from(vec![units(5, 5), Vec2::new(1_000, 0)]);
    assert!(!enemy_movement(&mut pos, &mut ctrl, 10_000));
    assert_eq!(pos, Vec2::new(1_000, 0));
    assert_eq!(ctrl.state, EnemyState::Attacking);
    let mut short = Vec2::new(0, 0);
    let mut far = EnemyController::from(vec![units(5, 5), Vec2::new(1_001, 0)]);
    assert!(!enemy_movement(&mut short, &mut far, 10_000));
    assert_eq!(short, Vec2::new(1_000, 0));
    assert_eq!(far.state, EnemyState::Moving);
}

#[test]
fn reaching_the_only_waypoint_removes_the_enemy() {
    let mut pos = Vec2::new(0, 0);
    let mut ctrl = EnemyController::from(vec![Vec2::new(10, 0)]);
    assert!(enemy_movement(&mut pos, &mut ctrl, FRAME));
    assert_eq!(pos, Vec2::new(10, 0));
    assert!(ctrl.attack_pos.is_empty());
    assert_eq!(ctrl.state, EnemyState::Moving);
}

#[test]
fn enemy_without_waypoints_is_removed() {
    let mut pos = units(3, 3);
    let mut ctrl = EnemyController::from(Vec::new());
    assert!(enemy_movement(&mut pos, &mut ctrl, FRAME));
    assert_eq!(pos, units(3, 3));
}

#[test]
fn attacking_enemy_stands_still() {
    let mut pos = units(3, 3);
    let mut ctrl = EnemyController { state: EnemyState::Attacking, attack_pos: vec![units(9, 9)] };
    assert!(!enemy_movement(&mut pos, &mut ctrl, 1_000_000));
    assert_eq!(pos, units(3, 3));
    assert_eq!(ctrl.attack_pos, vec![units(9, 9)]);
    assert_eq!(ctrl.state, EnemyState::Attacking);
}

#[test]
fn movement_across_the_whole_coordinate_range() {
    let mut pos = Vec2::new(i32::MIN, i32::MIN);
    let mut ctrl = EnemyController::from(vec![Vec2::new(i32::MAX, i32::MAX)]);
    assert!(!enemy_movement(&mut pos, &mut ctrl, 1_000_000));
    assert!(pos.x > i32::MIN && pos.x < i32::MIN + 100_000);
    assert_eq!(pos.x, pos.y);
    assert!(enemy_movement(&mut pos, &mut ctrl, u64::MAX));
    assert_eq!(pos, Vec2::new(i32::MAX, i32::MAX));
}

#[test]
fn default_ring_is_sixteen_bullets_every_fifty_milliseconds() {
    let ring = LineUpBullets::default();
    assert_eq!(ring.num, 16);
    assert_eq!(ring.num, RING_BULLETS);
    assert!(ring.bullets.is_empty());
    assert_eq!(ring.next_timer, Timer::new(50_000, TimerMode::Repeating));
    assert_eq!(RING_CADENCE, 50_000);
    assert_eq!(ring.angle, 0);
    assert!(!ring.done);
}

#[test]
fn ring_emits_exactly_num_bullets_evenly_spaced() {
    let mut ring = LineUpBullets::default();
    let mut spawned = Vec::new();
    let mut releases = 0;
    for tick in 0..400 {
        match line_up_bullets_system(&mut ring, 10_000) {
            RingAction::Wait => {}
            RingAction::Spawn(offset) => {
                assert_eq!(tick % 5, 4);
                assert_eq!(releases, 0);
                spawned.push(offset);
            }
            RingAction::Release => {
                assert_eq!(tick, 5 * 17 - 1);
                releases += 1;
            }
        }
    }
    assert_eq!(releases, 1);
    assert!(ring.done);
    assert_eq!(spawned.len(), 16);
    assert_eq!(ring.bullets, spawned);
    for (k, offset) in spawned.iter().enumerate() {
        assert_eq!(offset.radius, RING_RADIUS);
        assert_eq!(offset.angle, RING_START + k as i32 * 22_500_000);
    }
    assert_eq!(spawned[0], Polar { angle: 90_000_000, radius: 40_000 });
    assert_eq!(spawned[15], Polar { angle: 427_500_000, radius: 40_000 });
    assert_eq!(ring.angle, 360_000_000);
}

#[test]
fn ring_waits_between_beats() {
    let mut ring = LineUpBullets::default();
    assert_eq!(line_up_bullets_system(&mut ring, 49_999), RingAction::Wait);
    assert!(matches!(line_up_bullets_system(&mut ring, 1), RingAction::Spawn(_)));
    assert_eq!(line_up_bullets_system(&mut ring, 0), RingAction::Wait);
    assert_eq!(ring.bullets.len(), 1);
    assert_eq!(ring.angle, 22_500_000);
}

#[test]
fn ring_places_one_bullet_on_a_long_tick() {
    let mut ring = LineUpBullets::default();
    assert!(matches!(line_up_bullets_system(&mut ring, 1_000_000), RingAction::Spawn(_)));
    assert_eq!(ring.bullets.len(), 1);
}

#[test]
fn ring_of_an_odd_count_rounds_its_spacing_down() {
    let mut ring = LineUpBullets::new(7, 1);
    let mut angles = Vec::new();
    loop {
        match line_up_bullets_system(&mut ring, 1) {
            RingAction::Spawn(offset) => angles.push(offset.angle),
            RingAction::Release => break,
            RingAction::Wait => panic!("a beat was due"),
        }
    }
    assert_eq!(angles.len(), 7);
    for k in 0..7 {
        assert_eq!(angles[k], 90_000_000 + k as i32 * 51_428_571);
    }
}

#[test]
fn ring_without_bullets_is_done_on_its_first_beat() {
    let mut ring = LineUpBullets::new(0, 10);
    assert_eq!(line_up_bullets_system(&mut ring, 9), RingAction::Wait);
    assert_eq!(line_up_bullets_system(&mut ring, 1), RingAction::Release);
    assert!(ring.done);
    assert_eq!(line_up_bullets_system(&mut ring, 100), RingAction::Wait);
}

#[test]
fn ring_of_the_largest_count_stands_its_bullets_on_one_spot() {
    let mut ring = LineUpBullets::new(u32::MAX, 1);
    for _ in 0..3 {
        assert_eq!(
            line_up_bullets_system(&mut ring, 1),
            RingAction::Spawn(Polar { angle: 90_000_000, radius: 40_000 })
        );
    }
    assert_eq!(ring.angle, 0);
}

#[test]
fn finished_ring_stays_as_it_is() {
    let mut ring = LineUpBullets::new(1, 5);
    assert!(matches!(line_up_bullets_system(&mut ring, 5), RingAction::Spawn(_)));
    assert_eq!(line_up_bullets_system(&mut ring, 5), RingAction::Release);
    let done = ring.clone();
    for _ in 0..10 {
        assert_eq!(line_up_bullets_system(&mut ring, 5), RingAction::Wait);
    }
    assert_eq!(ring, done);
}

#[test]
fn attack_ends_when_the_ring_is_done() {
    let mut ctrl = EnemyController { state: EnemyState::Attacking, attack_pos: vec![units(1, 1)] };
    let mut ring = LineUpBullets::default();
    enemy_attack_done(&mut ctrl, &ring);
    assert_eq!(ctrl.state, EnemyState::Attacking);
    ring.done = true;
    enemy_attack_done(&mut ctrl, &ring);
    assert_eq!(ctrl.state, EnemyState::Moving);
    assert_eq!(ctrl.attack_pos, vec![units(1, 1)]);
    enemy_attack_done(&mut ctrl, &ring);
    assert_eq!(ctrl.state, EnemyState::Moving);
}

#[test]
fn state_decides_whether_there_is_a_ring() {
    assert_eq!(enemy_state_behavior(EnemyState::Attacking), Some(LineUpBullets::default()));
    assert_eq!(enemy_state_behavior(EnemyState::Moving), None);
}

#[test]
fn spawned_enemy_is_fresh() {
    let enemy = spawn_enemy(units(-440, 0), EnemyController::from(vec![units(440, 0)]));
    assert_eq!(
        enemy,
        Enemy {
            position: units(-440, 0),
            controller: EnemyController {
                state: EnemyState::Moving,
                attack_pos: vec![units(440, 0)],
            },
            health: Health { health: 100, max_health: 100 },
            ring: None,
        }
    );
    assert_eq!(ENEMY_HEALTH, 100);
    let attacker = spawn_enemy(
        units(0, 0),
        EnemyController { state: EnemyState::Attacking, attack_pos: vec![units(1, 0)] },
    );
    assert_eq!(attacker.ring, Some(LineUpBullets::default()));
}

#[test]
fn enemy_visits_its_waypoints_in_order_and_is_removed() {
    let path = vec![units(300, 0), units(0, 0), units(-300, 0)];
    let mut enemy = spawn_enemy(units(400, 0), enemy_on_path(path.clone()));
    assert_eq!(enemy.controller.attack_pos.len(), 3);
    assert_eq!(*enemy.controller.attack_pos.last().unwrap(), units(300, 0));
    let mut visits = Vec::new();
    let mut spawned = 0;
    let mut releases = 0;
    let mut ticks = 0;
    let mut left = 3;
    loop {
        ticks += 1;
        assert!(ticks < 10_000);
        let was = enemy.controller.state;
        let tick = enemy.update(FRAME);
        match tick.action {
            RingAction::Spawn(_) => spawned += 1,
            RingAction::Release => {
                releases += 1;
                assert_eq!(tick.released.len(), 16);
                assert_eq!(was, EnemyState::Attacking);
                assert_eq!(enemy.controller.state, EnemyState::Moving);
            }
            RingAction::Wait => assert!(tick.released.is_empty()),
        }
        let now = enemy.controller.attack_pos.len();
        assert!(now <= left);
        if now < left {
            assert_eq!(now, left - 1);
            visits.push((enemy.position, ticks));
            left = now;
        }
        assert_eq!(tick.despawn, now == 0);
        assert_eq!(enemy.ring.is_some(), enemy.controller.state == EnemyState::Attacking);
        if tick.despawn {
            break;
        }
    }
    assert_eq!(visits, vec![(units(300, 0), 61), (units(0, 0), 293), (units(-300, 0), 525)]);
    assert_eq!(visits.last().unwrap().0, *path.last().unwrap());
    assert_eq!(spawned, 32);
    assert_eq!(releases, 2);
    assert!(enemy.controller.attack_pos.is_empty());
}

#[test]
fn stored_waypoints_are_consumed_from_the_end() {
    let stored = vec![units(300, 0), units(0, 0), units(-300, 0)];
    let mut enemy = spawn_enemy(units(-400, 0), EnemyController::from(stored));
    let mut visits = Vec::new();
    let mut left = 3;
    for _ in 0..10_000 {
        let tick = enemy.update(FRAME);
        if enemy.controller.attack_pos.len() < left {
            left = enemy.controller.attack_pos.len();
            visits.push(enemy.position);
        }
        if tick.despawn {
            break;
        }
    }
    assert_eq!(visits, vec![units(-300, 0), units(0, 0), units(300, 0)]);
}

#[test]
fn removed_enemy_stays_removed() {
    let mut enemy = spawn_enemy(units(0, 0), EnemyController::from(Vec::new()));
    for _ in 0..3 {
        let tick = enemy.update(FRAME);
        assert!(tick.despawn);
        assert_eq!(tick.action, RingAction::Wait);
    }
}

#[test]
fn straight_bullet_flies_along_its_velocity() {
    let mut pos = Vec2::new(1_000, 1_000);
    move_straight_bullet(&mut pos, &StraightBullet(Vec2::new(30_000, -40_000)), FRAME);
    assert_eq!(pos, Vec2::new(1_500, 334));
    move_straight_bullet(&mut pos, &StraightBullet(Vec2::new(30_000, -40_000)), 1_000_000);
    assert_eq!(pos, Vec2::new(31_500, -39_666));
    move_straight_bullet(&mut pos, &StraightBullet(Vec2::new(0, 0)), u64::MAX);
    assert_eq!(pos, Vec2::new(31_500, -39_666));
}

#[test]
fn straight_bullet_stops_at_the_end_of_the_range() {
    let mut pos = Vec2::new(0, 0);
    move_straight_bullet(&mut pos, &StraightBullet(Vec2::new(i32::MAX, i32::MIN)), u64::MAX);
    assert_eq!(pos, Vec2::new(i32::MAX, i32::MIN));
}

#[test]
fn enemy_bullets_leave_beyond_the_despawn_distance() {
    let camera = Vec2::new(0, 0);
    assert!(!despawn_enemy_bullet(&Vec2::new(-1_000_000, 0), &camera));
    assert!(despawn_enemy_bullet(&Vec2::new(-1_000_001, 0), &camera));
    assert!(!despawn_enemy_bullet(&Vec2::new(800_000, 600_000), &camera));
    assert!(despawn_enemy_bullet(&Vec2::new(800_000, 600_001), &camera));
}
