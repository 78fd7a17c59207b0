use shmup_core::boss::{spawn_boss, BossPhase};
use shmup_core::enemy::{spawn_enemy, EnemyController, EnemyState};
use shmup_core::geometry::Vec2;
use shmup_core::level::{
    enemy_on_path, scroll_system, setup, setup_level, spawn_enemies, spawn_pending_boss, Level,
    Scroll, ScrollDoneEvent, BOSS_DEPTH, SCROLL_SPEED, SPAWN_DISTANCE,
};

fn units(x: i32, y: i32) -> Vec2 {
    Vec2::new(x * 1000, y * 1000)
}

fn entry(tag: i32, first_y: i32) -> (Vec2, EnemyController) {
    (units(tag, tag), EnemyController::from(vec![units(tag, 0), units(0, first_y)]))
}

#[test]
fn path_is_stored_last_first() {
    let ctrl = enemy_on_path(vec![units(1, 0), units(2, 0), units(3, 0)]);
    assert_eq!(ctrl.state, EnemyState::Moving);
    assert_eq!(ctrl.attack_pos, vec![units(3, 0), units(2, 0), units(1, 0)]);
    assert!(enemy_on_path(Vec::new()).attack_pos.is_empty());
}

#[test]
fn level_has_two_waves_a_straggler_and_a_boss() {
    let level = setup_level();
    assert_eq!(level.enemies.len(), 7);
    assert_eq!(level.boss_pos, Some(units(0, -1000)));
    assert_eq!(level.enemies[0].0, units(-440, 0));
    assert_eq!(
        level.enemies[0].1.attack_pos,
        vec![units(440, 0), Vec2::new(133_333, -100_000), Vec2::new(-133_333, 0)]
    );
    assert_eq!(level.enemies[2].0, units(-440, -200));
    assert_eq!(
        level.enemies[2].1.attack_pos,
        vec![units(440, -200), Vec2::new(133_333, -300_000), Vec2::new(-133_333, -200_000)]
    );
    assert_eq!(level.enemies[3].0, units(440, -400));
    assert_eq!(
        level.enemies[3].1.attack_pos,
        vec![units(-440, -400), Vec2::new(133_333, -400_000), Vec2::new(666_667, -400_000)]
    );
    assert_eq!(level.enemies[5].0, units(440, -600));
    assert_eq!(level.enemies[6].0, units(0, -900));
    assert_eq!(
        level.enemies[6].1.attack_pos,
        vec![units(440, -800), Vec2::new(266_667, -800_000), units(0, -750), units(0, -800)]
    );
    for (_, ctrl) in &level.enemies {
        assert_eq!(ctrl.state, EnemyState::Moving);
        assert!(!ctrl.attack_pos.is_empty());
    }
}

#[test]
fn level_columns_are_the_thirds_of_the_screen() {
    let third = 800.0f64 / 3.0;
    let level = setup_level();
    let lane = level.enemies[0].1.attack_pos[2].x as f64 / 1000.0;
    assert!((lane - (third - 400.0)).abs() < 0.001);
    let other = level.enemies[0].1.attack_pos[1].x as f64 / 1000.0;
    assert!((other - (2.0 * third - 400.0)).abs() < 0.001);
    let far = level.enemies[3].1.attack_pos[2].x as f64 / 1000.0;
    assert!((far - (third + 400.0)).abs() < 0.001);
    let last = level.enemies[6].1.attack_pos[1].x as f64 / 1000.0;
    assert!((last - third).abs() < 0.001);
}

#[test]
fn opening_level_has_no_boss() {
    let level = setup();
    assert_eq!(level.enemies.len(), 6);
    assert_eq!(level.boss_pos, None);
    assert_eq!(level.enemies[..3], setup_level().enemies[..3]);
    assert_eq!(level.enemies[4].0, units(440, -500));
    assert_eq!(
        level.enemies[4].1.attack_pos,
        vec![Vec2::new(-133_333, -500_000), Vec2::new(133_333, -500_000), units(440, -500)]
    );
}

#[test]
fn enemy_waits_until_the_scroll_is_one_screen_away() {
    let waiting =
        (units(440, -500), EnemyController::from(vec![units(-440, -500), units(0, -500)]));
    let mut level = Level { enemies: vec![waiting.clone()], boss_pos: None };
    for camera_y in [500_000, 200_000, 100_001] {
        assert!(spawn_enemies(&mut level, camera_y).is_empty());
        assert_eq!(level.enemies, vec![waiting.clone()]);
    }
    let spawned = spawn_enemies(&mut level, 100_000);
    assert_eq!(spawned, vec![spawn_enemy(waiting.0, waiting.1.clone())]);
    assert!(level.enemies.is_empty());
    for camera_y in [100_000, 99_999, 0, -500_000, i32::MIN] {
        assert!(spawn_enemies(&mut level, camera_y).is_empty());
    }
    assert_eq!(SPAWN_DISTANCE, 600_000);
}

#[test]
fn spawning_keeps_the_order_of_both_parts() {
    let entries =
        vec![entry(1, -100), entry(2, -900), entry(3, -600), entry(4, -601), entry(5, 50)];
    let mut level = Level { enemies: entries.clone(), boss_pos: Some(units(0, -1000)) };
    let spawned = spawn_enemies(&mut level, 0);
    let tags: Vec<i32> = spawned.iter().map(|e| e.position.x / 1000).collect();
    assert_eq!(tags, vec![1, 3, 5]);
    assert_eq!(level.enemies, vec![entries[1].clone(), entries[3].clone()]);
    assert_eq!(level.boss_pos, Some(units(0, -1000)));
    for enemy in &spawned {
        assert_eq!(enemy.health.health, 100);
        assert_eq!(enemy.ring, None);
        assert_eq!(enemy.controller.attack_pos.len(), 2);
    }
    let later = spawn_enemies(&mut level, -1_000);
    assert_eq!(later.len(), 1);
    assert_eq!(later[0].position, units(4, 4));
    let last = spawn_enemies(&mut level, -300_000);
    assert_eq!(last.len(), 1);
    assert_eq!(last[0].position, units(2, 2));
    assert!(level.enemies.is_empty());
}

#[test]
fn spawning_from_an_empty_backlog() {
    let mut level = Level { enemies: Vec::new(), boss_pos: None };
    assert!(spawn_enemies(&mut level, 0).is_empty());
    assert!(level.enemies.is_empty());
}

#[test]
fn spawning_at_the_ends_of_the_range() {
    let mut level =
        Level { enemies: vec![entry(1, -2_000_000), entry(2, 2_000_000)], boss_pos: None };
    assert!(spawn_enemies(&mut level, i32::MAX).is_empty());
    assert_eq!(spawn_enemies(&mut level, i32::MIN).len(), 2);
}

#[test]
fn whole_level_appears_as_the_camera_scrolls() {
    let mut level = setup_level();
    let mut scroll = Scroll::default();
    let mut appeared = Vec::new();
    let mut boss = None;
    let mut signals = 0;
    for _ in 0..10_000 {
        let boss_y = boss.as_ref().map(|b: &shmup_core::boss::Boss| b.position.y);
        if scroll_system(&mut scroll, 16_667, boss_y).is_some() {
            signals += 1;
        }
        for enemy in spawn_enemies(&mut level, scroll.camera_y) {
            appeared.push((enemy.position, scroll.camera_y));
        }
        if let Some(b) = spawn_pending_boss(&mut level, scroll.camera_y) {
            assert!(boss.is_none());
            assert!(scroll.camera_y <= -400_000 && scroll.camera_y > -401_000);
            boss = Some(b);
        }
    }
    assert_eq!(appeared.len(), 7);
    for k in 0..6 {
        assert_eq!(appeared[k].1, -250);
    }
    assert_eq!(appeared[6].0, units(0, -900));
    assert!(appeared[6].1 <= -200_000 && appeared[6].1 > -201_000);
    assert!(level.enemies.is_empty());
    assert_eq!(level.boss_pos, None);
    assert_eq!(boss.unwrap().phase, BossPhase::Idle);
    assert_eq!(scroll.camera_y, -1_000_000 + BOSS_DEPTH);
    assert_eq!(signals, 1);
    assert!(scroll.done);
}

#[test]
fn boss_appears_once_when_its_place_is_in_reach() {
    let mut level = Level { enemies: vec![entry(1, -5_000)], boss_pos: Some(units(0, -1000)) };
    assert_eq!(spawn_pending_boss(&mut level, -399_999), None);
    assert_eq!(level.boss_pos, Some(units(0, -1000)));
    let boss = spawn_pending_boss(&mut level, -400_000);
    assert_eq!(boss, Some(spawn_boss(units(0, -1000))));
    assert_eq!(level.boss_pos, None);
    assert_eq!(level.enemies, vec![entry(1, -5_000)]);
    assert_eq!(spawn_pending_boss(&mut level, -400_000), None);
    assert_eq!(spawn_pending_boss(&mut level, -900_000), None);
}

#[test]
fn scroll_starts_at_the_top_with_the_default_speed() {
    let scroll = Scroll::default();
    assert_eq!(scroll, Scroll { camera_y: 0, speed: 15_000, done: false });
    assert_eq!(SCROLL_SPEED, 15_000);
}

#[test]
fn scroll_without_a_boss_is_unconditional() {
    let mut scroll = Scroll::default();
    assert_eq!(scroll_system(&mut scroll, 1_000_000, None), None);
    assert_eq!(scroll.camera_y, -15_000);
    assert_eq!(scroll_system(&mut scroll, 16_667, None), None);
    assert_eq!(scroll.camera_y, -15_250);
    assert_eq!(scroll_system(&mut scroll, 0, None), None);
    assert_eq!(scroll.camera_y, -15_250);
    scroll.speed = 45_000;
    scroll_system(&mut scroll, 1_000_000, None);
    assert_eq!(scroll.camera_y, -60_250);
    assert!(!scroll.done);
}

#[test]
fn scroll_rests_above_the_boss_and_signals_once() {
    let boss_y = Some(-1_000_000);
    let mut scroll = Scroll { camera_y: -770_000, speed: 15_000, done: false };
    assert_eq!(scroll_system(&mut scroll, 100_000, boss_y), None);
    assert_eq!(scroll.camera_y, -771_500);
    assert_eq!(scroll_system(&mut scroll, 1_000_000, boss_y), Some(ScrollDoneEvent));
    assert_eq!(scroll.camera_y, -775_000);
    assert!(scroll.done);
    for _ in 0..5 {
        assert_eq!(scroll_system(&mut scroll, 1_000_000, boss_y), None);
        assert_eq!(scroll.camera_y, -775_000);
    }
    assert_eq!(scroll_system(&mut scroll, 1_000_000, None), None);
    assert_eq!(scroll.camera_y, -790_000);
    assert_eq!(scroll_system(&mut scroll, 1_000_000, boss_y), None);
    assert_eq!(scroll.camera_y, -790_000);
}

#[test]
fn scroll_that_lands_exactly_on_its_rest_signals() {
    let mut scroll = Scroll { camera_y: -760_000, speed: 15_000, done: false };
    assert_eq!(scroll_system(&mut scroll, 1_000_000, Some(-1_000_000)), Some(ScrollDoneEvent));
    assert_eq!(scroll.camera_y, -775_000);
}

#[test]
fn scroll_below_its_rest_signals_without_moving() {
    let mut scroll = Scroll { camera_y: -900_000, speed: 15_000, done: false };
    assert_eq!(scroll_system(&mut scroll, 1_000_000, Some(-1_000_000)), Some(ScrollDoneEvent));
    assert_eq!(scroll.camera_y, -900_000);
}

#[test]
fn scroll_stops_at_the_end_of_the_range() {
    let mut scroll = Scroll { camera_y: i32::MIN + 10, speed: u32::MAX, done: false };
    assert_eq!(scroll_system(&mut scroll, u64::MAX, None), None);
    assert_eq!(scroll.camera_y, i32::MIN);
    let mut high = Scroll { camera_y: i32::MAX, speed: u32::MAX, done: false };
    assert_eq!(scroll_system(&mut high, u64::MAX, Some(i32::MAX)), Some(ScrollDoneEvent));
    assert_eq!(high.camera_y, i32::MAX);
    let mut low = Scroll { camera_y: i32::MAX, speed: u32::MAX, done: false };
    assert_eq!(scroll_system(&mut low, u64::MAX, Some(i32::MIN)), Some(ScrollDoneEvent));
    assert_eq!(low.camera_y, i32::MIN + BOSS_DEPTH);
}
