use shmup_core::geometry::Vec2;
use shmup_core::player::{
    fire_volley, player_damage, player_die_check, player_item_system, remove_bullets,
    spawn_volley_bullet, Player, PlayerDiedEvent, ATTACK_COST, BULLET_COST, ITEM_GAIN, MAX_AREA,
    MIN_RADIUS, START_RADIUS, VOLLEY_SPREAD,
};

#[test]
fn default_player_starts_at_full_size() {
    let p = Player::default();
    assert_eq!(p.radius, START_RADIUS);
    assert_eq!(p.max_area, MAX_AREA);
    assert_eq!(p.radius as u64 * p.radius as u64, p.max_area);
}

#[test]
fn hit_costs_area_not_radius() {
    let mut p = Player::new(50_000, 2_500_000_000);
    p.increase(-BULLET_COST);
    assert_eq!(p.radius, 49_193);
    assert!((p.radius as f64 / 1000.0 - 2420f64.sqrt()).abs() < 0.001);
    assert!((p.radius as f64 / 1000.0 - 49.19).abs() < 0.01);
}

#[test]
fn thirty_two_hits_floor_the_radius_at_zero() {
    let mut p = Player::new(50_000, 2_500_000_000);
    let mut last = p.radius;
    for _ in 0..32 {
        p.increase(-BULLET_COST);
        assert!(p.radius <= last);
        last = p.radius;
    }
    assert_eq!(p.radius, 0);
    p.increase(-BULLET_COST);
    assert_eq!(p.radius, 0);
}

#[test]
fn radius_never_exceeds_the_configured_maximum() {
    let mut p = Player::new(39_000, 1_600_000_000);
    for _ in 0..100 {
        p.increase(ITEM_GAIN);
        assert!(p.radius as u64 * p.radius as u64 <= p.max_area);
    }
    assert_eq!(p.radius, 40_000);
    p.increase(i64::MAX);
    assert_eq!(p.radius, 40_000);
    p.increase(i64::MIN);
    assert_eq!(p.radius, 0);
}

#[test]
fn oversized_player_is_clamped_by_the_first_change() {
    let mut p = Player::new(50_000, 1_600_000_000);
    p.increase(-BULLET_COST);
    assert_eq!(p.radius, 40_000);
}

#[test]
fn increase_handles_the_largest_values() {
    let mut p = Player::new(u32::MAX, u64::MAX);
    p.increase(0);
    assert_eq!(p.radius, u32::MAX);
    p.increase(i64::MAX);
    assert_eq!(p.radius, u32::MAX);
}

#[test]
fn pickups_are_booked_one_by_one() {
    let mut slot = Some(Player::new(40_000, 2_500_000_000));
    player_item_system(&mut slot, 3);
    assert_eq!(slot.unwrap().radius, 40_372);
    let mut one = Some(Player::new(40_000, 2_500_000_000));
    player_item_system(&mut one, 1);
    assert_eq!(one.unwrap().radius, 40_124);
    player_item_system(&mut one, 0);
    assert_eq!(one.unwrap().radius, 40_124);
}

#[test]
fn pickups_without_a_player_do_nothing() {
    let mut slot: Option<Player> = None;
    player_item_system(&mut slot, 5);
    assert_eq!(slot, None);
}

#[test]
fn bullets_of_one_frame_are_booked_in_one_sum() {
    let mut slot = Some(Player::new(50_000, 2_500_000_000));
    assert!(player_damage(&mut slot, 2));
    let mut twice = Player::new(50_000, 2_500_000_000);
    twice.increase(-2 * BULLET_COST);
    assert_eq!(slot.unwrap(), twice);
    assert_eq!(twice.radius, 48_373);
}

#[test]
fn damage_without_bullets_or_player_is_no_hit() {
    let mut slot = Some(Player::default());
    assert!(!player_damage(&mut slot, 0));
    assert_eq!(slot, Some(Player::default()));
    let mut nobody: Option<Player> = None;
    assert!(!player_damage(&mut nobody, 3));
    assert_eq!(nobody, None);
}

#[test]
fn damage_by_the_most_bullets_empties_the_player() {
    let mut slot = Some(Player::default());
    assert!(player_damage(&mut slot, u32::MAX));
    assert_eq!(slot.unwrap().radius, 0);
    let mut huge = Some(Player::new(u32::MAX, u64::MAX));
    assert!(player_damage(&mut huge, u32::MAX));
    assert_eq!(huge.unwrap().radius, 4_254_779_275);
}

#[test]
fn attack_costs_area_and_fires_by_radius() {
    let mut p = Player::default();
    assert_eq!(p.attack_system(true), Some(64));
    assert_eq!(p.radius, 48_989);
    assert_eq!(p.attack_system(true), Some(62));
    let mut small = Player::new(12_000, MAX_AREA);
    assert_eq!(small.attack_system(true), Some(15));
    assert_eq!(small.radius, 6_633);
}

#[test]
fn attack_needs_a_press() {
    let mut p = Player::default();
    assert_eq!(p.attack_system(false), None);
    assert_eq!(p, Player::default());
}

#[test]
fn attack_is_suppressed_when_it_would_kill() {
    let mut p = Player::new(11_000, MAX_AREA);
    assert_eq!(p.attack_system(true), None);
    assert_eq!(p.radius, 11_000);
    let mut tiny = Player::new(MIN_RADIUS - 1, MAX_AREA);
    assert_eq!(tiny.attack_system(true), None);
    assert_eq!(tiny.radius, MIN_RADIUS - 1);
    let mut edge = Player::new(11_181, MAX_AREA);
    assert_eq!(edge.attack_system(true), Some(14));
    assert_eq!(edge.radius, 5_001);
    let mut under = Player::new(11_180, MAX_AREA);
    assert_eq!(under.attack_system(true), None);
}

#[test]
fn attack_never_kills() {
    let mut p = Player::default();
    let mut volleys = 0;
    while p.attack_system(true).is_some() {
        volleys += 1;
        assert!(p.radius >= MIN_RADIUS);
        assert!(volleys < 1_000);
    }
    assert_eq!(volleys, 24);
    assert!(ATTACK_COST > 0);
}

#[test]
fn death_signal_fires_exactly_once() {
    let mut slot = Some(Player::new(50_000, 2_500_000_000));
    let mut signals = 0;
    let mut frames_alive = 0;
    for _ in 0..40 {
        player_damage(&mut slot, 1);
        if let Some(PlayerDiedEvent) = player_die_check(&mut slot) {
            signals += 1;
        }
        if slot.is_some() {
            frames_alive += 1;
        }
    }
    assert_eq!(signals, 1);
    assert_eq!(frames_alive, 30);
    assert_eq!(slot, None);
}

#[test]
fn die_check_is_strict_about_the_threshold() {
    let mut at = Some(Player::new(MIN_RADIUS, MAX_AREA));
    assert_eq!(player_die_check(&mut at), None);
    assert!(at.is_some());
    let mut under = Some(Player::new(MIN_RADIUS - 1, MAX_AREA));
    assert_eq!(player_die_check(&mut under), Some(PlayerDiedEvent));
    assert_eq!(under, None);
    assert_eq!(player_die_check(&mut under), None);
}

#[test]
fn collider_is_four_fifths_of_the_radius() {
    assert_eq!(Player::default().collider_radius(), 40_000);
    assert_eq!(Player::new(7, MAX_AREA).collider_radius(), 5);
    assert_eq!(Player::new(u32::MAX, u64::MAX).collider_radius(), 3_435_973_836);
}

#[test]
fn damage_effect_fades_in_as_the_player_shrinks() {
    assert_eq!(Player::new(50_000, MAX_AREA).damage_effect_alpha(), 0);
    assert_eq!(Player::new(40_000, MAX_AREA).damage_effect_alpha(), 0);
    assert_eq!(Player::new(30_000, MAX_AREA).damage_effect_alpha(), 200);
    assert_eq!(Player::new(5_000, MAX_AREA).damage_effect_alpha(), 700);
    assert_eq!(Player::new(0, MAX_AREA).damage_effect_alpha(), 800);
}

#[test]
fn volley_bullets_fly_outward_from_inside_the_disk() {
    let b = spawn_volley_bullet(0x8000_0000, 0x4000_0000);
    assert_eq!(b.offset.radius, 25_000);
    assert_eq!(b.offset.angle, 90_000_000);
    assert_eq!(b.velocity.radius, 50_000);
    assert_eq!(b.velocity.angle, 90_000_000);
    let far = spawn_volley_bullet(u32::MAX, u32::MAX);
    assert!(far.offset.radius < VOLLEY_SPREAD);
    assert!(far.offset.angle < 360_000_000);
    let near = spawn_volley_bullet(0, 0);
    assert_eq!(near.offset.radius, 0);
    assert_eq!(near.offset.angle, 0);
}

#[test]
fn player_bullets_leave_beyond_the_despawn_distance() {
    let camera = Vec2::new(0, -500_000);
    assert!(!remove_bullets(&Vec2::new(0, 500_000), &camera));
    assert!(remove_bullets(&Vec2::new(0, 500_001), &camera));
    assert!(!remove_bullets(&Vec2::new(600_000, 300_000), &camera));
    assert!(remove_bullets(&Vec2::new(600_001, 300_000), &camera));
}

#[test]
fn volley_has_as_many_bullets_as_asked() {
    let bullets = fire_volley(64);
    assert_eq!(bullets.len(), 64);
    for bullet in &bullets {
        assert!(bullet.offset.radius >= 0 && bullet.offset.radius < VOLLEY_SPREAD);
        assert!(bullet.offset.angle >= 0 && bullet.offset.angle < 360_000_000);
        assert_eq!(bullet.velocity.angle, bullet.offset.angle);
        assert_eq!(bullet.velocity.radius, 2 * bullet.offset.radius);
    }
    assert!(bullets.iter().any(|b| *b != bullets[0]));
    assert!(fire_volley(0).is_empty());
}
