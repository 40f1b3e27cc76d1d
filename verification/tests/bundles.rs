//! The component bundles entities are built from.

use chicken_sim::ChickenBundle;
use chicken_sim::ChickenState;
use chicken_sim::EggBundle;
use chicken_sim::TimerMode;
use chicken_sim::Transform;
use chicken_sim::Vec2;

#[test]
fn adult_bundle_starts_at_origin() {
    let c = ChickenBundle::adult();
    assert_eq!(c.transform.translation, Vec2 { x: 0, y: 0 });
    assert_eq!(c.transform.scale, Vec2 { x: 5_000, y: 5_000 });
    assert_eq!(c.target.target, Vec2 { x: 0, y: 0 });
    assert_eq!(c.egg_spawn_timer.timer.elapsed_ms, 0);
    assert!(matches!(c.chicken_data.state, ChickenState::Adult));
}

#[test]
fn child_bundle_keeps_position_and_targets_itself() {
    let transform = Transform {
        translation: Vec2 { x: 11_000, y: -22_000 },
        scale: Vec2 { x: -5_000, y: 5_000 },
    };
    let c = ChickenBundle::child(&transform);
    assert_eq!(c.transform.translation, Vec2 { x: 11_000, y: -22_000 });
    assert_eq!(c.transform.scale, Vec2 { x: -2_500, y: 2_500 });
    assert_eq!(c.target.target, Vec2 { x: 11_000, y: -22_000 });
    assert_eq!(c.egg_spawn_timer.timer.elapsed_ms, 0);
    match c.chicken_data.state {
        ChickenState::Child(t) => {
            assert_eq!(t.elapsed_ms, 0);
            assert_eq!(t.duration_ms, 5_000);
            assert_eq!(t.mode, TimerMode::Once);
        },
        ChickenState::Adult => panic!("a fresh chick must be a child"),
    }
}

#[test]
fn egg_bundle_takes_egg_scale_and_parent_facing() {
    let transform = Transform {
        translation: Vec2 { x: 1_234, y: 5_678 },
        scale: Vec2 { x: -5_000, y: 5_000 },
    };
    let e = EggBundle::from_chicken(&transform);
    assert_eq!(e.transform.translation, Vec2 { x: 1_234, y: 5_678 });
    assert_eq!(e.transform.scale, Vec2 { x: -2_000, y: 2_000 });
    assert_eq!(e.egg_hatch_timer.timer.elapsed_ms, 0);
    assert_eq!(e.egg_hatch_timer.timer.duration_ms, 5_000);
}
