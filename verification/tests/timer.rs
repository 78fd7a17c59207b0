use shmup_core::timer::{Timer, TimerMode};

#[test]
fn fresh_timer_has_not_finished() {
    let t = Timer::new(100_000, TimerMode::Repeating);
    assert_eq!(t.duration, 100_000);
    assert_eq!(t.elapsed, 0);
    assert!(!t.finished());
    assert!(!t.just_finished());
    assert_eq!(t.times_finished_this_tick(), 0);
}

#[test]
fn repeating_timer_beats_and_carries_the_rest() {
    let mut t = Timer::new(100_000, TimerMode::Repeating);
    t.tick(60_000);
    assert!(!t.finished());
    assert_eq!(t.elapsed, 60_000);
    t.tick(60_000);
    assert!(t.finished());
    assert!(t.just_finished());
    assert_eq!(t.times_finished_this_tick(), 1);
    assert_eq!(t.elapsed, 20_000);
    t.tick(10_000);
    assert!(!t.finished());
    assert!(!t.just_finished());
    assert_eq!(t.elapsed, 30_000);
}

#[test]
fn repeating_timer_counts_every_round_of_a_long_tick() {
    let mut t = Timer::new(50_000, TimerMode::Repeating);
    t.tick(175_000);
    assert!(t.finished());
    assert_eq!(t.times_finished_this_tick(), 3);
    assert_eq!(t.elapsed, 25_000);
}

#[test]
fn repeating_timer_finishes_exactly_at_its_duration() {
    let mut t = Timer::new(50_000, TimerMode::Repeating);
    t.tick(49_999);
    assert!(!t.finished());
    t.tick(1);
    assert!(t.finished());
    assert_eq!(t.elapsed, 0);
}

#[test]
fn repeating_timer_of_no_duration_always_beats() {
    let mut t = Timer::new(0, TimerMode::Repeating);
    t.tick(0);
    assert!(t.finished());
    assert_eq!(t.times_finished_this_tick(), u32::MAX);
    assert_eq!(t.elapsed, 0);
    t.tick(7);
    assert!(t.finished());
    assert_eq!(t.elapsed, 0);
}

#[test]
fn once_timer_stays_finished() {
    let mut t = Timer::new(1_500_000, TimerMode::Once);
    t.tick(1_000_000);
    assert!(!t.finished());
    t.tick(1_000_000);
    assert!(t.finished());
    assert!(t.just_finished());
    assert_eq!(t.elapsed, 1_500_000);
    t.tick(1_000_000);
    assert!(t.finished());
    assert!(!t.just_finished());
    assert_eq!(t.elapsed, 1_500_000);
}

#[test]
fn timer_clock_saturates() {
    let mut t = Timer::new(u64::MAX, TimerMode::Repeating);
    t.tick(u64::MAX - 1);
    assert!(!t.finished());
    t.tick(u64::MAX);
    assert!(t.finished());
    assert_eq!(t.times_finished_this_tick(), 1);
    assert_eq!(t.elapsed, 0);
}
