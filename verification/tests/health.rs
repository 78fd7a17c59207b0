use shmup_core::health::{add_healthbar, update_healthbar, Health, HealthBar};

#[test]
fn percent_rounds_down() {
    assert_eq!(Health { health: 200, max_health: 200 }.percent(), 100);
    assert_eq!(Health { health: 199, max_health: 200 }.percent(), 99);
    assert_eq!(Health { health: 100, max_health: 200 }.percent(), 50);
    assert_eq!(Health { health: 1, max_health: 200 }.percent(), 0);
    assert_eq!(Health { health: 0, max_health: 200 }.percent(), 0);
    assert_eq!(Health { health: 1, max_health: 3 }.percent(), 33);
}

#[test]
fn percent_of_the_largest_health() {
    assert_eq!(Health { health: u32::MAX, max_health: u32::MAX }.percent(), 100);
    assert_eq!(Health { health: u32::MAX, max_health: 1 }.percent(), 429_496_729_500);
}

#[test]
fn full_health_is_the_maximum() {
    assert_eq!(Health::full(100), Health { health: 100, max_health: 100 });
}

#[test]
fn health_bar_is_hidden_at_full_health() {
    let bar = update_healthbar(&Health::full(200));
    assert_eq!(bar, HealthBar { visible: false, fill: 1_000, offset: 0 });
}

#[test]
fn health_bar_shrinks_flush_left() {
    let bar = update_healthbar(&Health { health: 100, max_health: 200 });
    assert_eq!(bar, HealthBar { visible: true, fill: 500, offset: -25_000 });
    let empty = update_healthbar(&Health { health: 0, max_health: 200 });
    assert_eq!(empty, HealthBar { visible: true, fill: 0, offset: -50_000 });
    let nearly = update_healthbar(&Health { health: 199, max_health: 200 });
    assert_eq!(nearly, HealthBar { visible: true, fill: 990, offset: -500 });
}

#[test]
fn health_bar_hangs_above_the_sprite() {
    assert_eq!(add_healthbar(Some(80_000)), 46_250);
    assert_eq!(add_healthbar(Some(100_000)), 56_250);
    assert_eq!(add_healthbar(Some(0)), 6_250);
    assert_eq!(add_healthbar(None), 0);
    assert_eq!(add_healthbar(Some(u32::MAX)), 2_147_489_897);
}
