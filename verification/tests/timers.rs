//! Timer accumulation, firing and wrap-around.

use chicken_sim::EggHatchTimer;
use chicken_sim::EggSpawnTimer;
use chicken_sim::Timer;
use chicken_sim::TimerMode;

#[test]
fn repeating_timer_wraps_on_fire() {
    let mut t = Timer::new(10_000, TimerMode::Repeating);
    assert!(!t.tick(9_999));
    assert_eq!(t.elapsed_ms, 9_999);
    assert!(t.tick(1));
    assert_eq!(t.elapsed_ms, 0);
}

#[test]
fn repeating_timer_keeps_overflow() {
    let mut t = Timer::new(10_000, TimerMode::Repeating);
    assert!(t.tick(25_000));
    assert_eq!(t.elapsed_ms, 5_000);
}

#[test]
fn once_timer_saturates() {
    let mut t = Timer::new(5_000, TimerMode::Once);
    assert!(!t.tick(4_999));
    assert_eq!(t.elapsed_ms, 4_999);
    assert!(t.tick(1));
    assert_eq!(t.elapsed_ms, 5_000);
    assert!(t.tick(1_000));
    assert_eq!(t.elapsed_ms, 5_000);
}

#[test]
fn default_timers_have_full_period_ahead() {
    let spawn = EggSpawnTimer::default();
    assert_eq!(spawn.timer.elapsed_ms, 0);
    assert_eq!(spawn.timer.duration_ms, 10_000);
    assert_eq!(spawn.timer.mode, TimerMode::Repeating);
    let hatch = EggHatchTimer::default();
    assert_eq!(hatch.timer.elapsed_ms, 0);
    assert_eq!(hatch.timer.duration_ms, 5_000);
    assert_eq!(hatch.timer.mode, TimerMode::Repeating);
}
