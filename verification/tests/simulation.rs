//! The systems end to end: movement, targeting, facing,
//! reproduction, hatching and growth over a live store.

use chicken_sim::ChickenBundle;
use chicken_sim::ChickenData;
use chicken_sim::ChickenState;
use chicken_sim::EggBundle;
use chicken_sim::EggSpawnTimer;
use chicken_sim::EntityData;
use chicken_sim::EntityStore;
use chicken_sim::Target;
use chicken_sim::Transform;
use chicken_sim::Vec2;
use chicken_sim::dist_milli;
use chicken_sim::flip_sprite;
use chicken_sim::grow_chickens;
use chicken_sim::hatch_eggs;
use chicken_sim::move_entity;
use chicken_sim::needs_new_target;
use chicken_sim::select_new_random_target;
use chicken_sim::setup_chickens;
use chicken_sim::spawn_eggs;
use chicken_sim::tick;

fn chicken_at(x: i64, y: i64, tx: i64, ty: i64) -> EntityData {
    EntityData::Chicken(ChickenBundle {
        egg_spawn_timer: EggSpawnTimer::default(),
        target: Target { target: Vec2 { x: tx, y: ty } },
        chicken_data: ChickenData { state: ChickenState::Adult },
        transform: Transform {
            translation: Vec2 { x, y },
            scale: Vec2 { x: 5_000, y: 5_000 },
        },
    })
}

fn chicken_of(store: &EntityStore, index: usize) -> ChickenBundle {
    match store.slots[index].data {
        Some(EntityData::Chicken(c)) => c,
        _ => panic!("expected a chicken in slot {index}"),
    }
}

fn egg_of(store: &EntityStore, index: usize) -> EggBundle {
    match store.slots[index].data {
        Some(EntityData::Egg(e)) => e,
        _ => panic!("expected an egg in slot {index}"),
    }
}

#[test]
fn setup_places_initial_adults() {
    let mut store = EntityStore::new();
    setup_chickens(&mut store);
    assert_eq!(store.slot_count(), 5);
    for i in 0..5 {
        let c = chicken_of(&store, i);
        assert_eq!(c.transform.translation, Vec2 { x: 0, y: 0 });
        assert_eq!(c.transform.scale, Vec2 { x: 5_000, y: 5_000 });
        assert!(matches!(c.chicken_data.state, ChickenState::Adult));
    }
}

#[test]
fn movement_with_zero_dt_changes_nothing() {
    let mut store = EntityStore::new();
    store.create(chicken_at(1_000, 2_000, 50_000, -40_000));
    move_entity(&mut store, 0);
    let c = chicken_of(&store, 0);
    assert_eq!(c.transform.translation, Vec2 { x: 1_000, y: 2_000 });
}

#[test]
fn movement_approach_is_monotone() {
    let mut store = EntityStore::new();
    store.create(chicken_at(0, 0, 100_000, 50_000));
    let target = Vec2 { x: 100_000, y: 50_000 };
    let mut last = dist_milli(Vec2 { x: 0, y: 0 }, target);
    for _ in 0..10 {
        move_entity(&mut store, 100);
        let c = chicken_of(&store, 0);
        let d = dist_milli(c.transform.translation, target);
        assert!(d <= last, "distance grew from {last} to {d}");
        last = d;
    }
    assert!(last < dist_milli(Vec2 { x: 0, y: 0 }, target));
}

#[test]
fn movement_walks_straight_along_an_axis() {
    let mut store = EntityStore::new();
    store.create(chicken_at(0, 0, 100_000, 0));
    move_entity(&mut store, 480);
    let c = chicken_of(&store, 0);
    assert_eq!(c.transform.translation, Vec2 { x: 48_000, y: 0 });
}

#[test]
fn movement_ignores_eggs() {
    let mut store = EntityStore::new();
    let transform = Transform {
        translation: Vec2 { x: 9_000, y: -9_000 },
        scale: Vec2 { x: 5_000, y: 5_000 },
    };
    store.create(EntityData::Egg(EggBundle::from_chicken(&transform)));
    move_entity(&mut store, 1_000);
    let e = egg_of(&store, 0);
    assert_eq!(e.transform.translation, Vec2 { x: 9_000, y: -9_000 });
}

#[test]
fn arrival_check_uses_proximity_threshold() {
    let near = Transform {
        translation: Vec2 { x: 0, y: 0 },
        scale: Vec2 { x: 5_000, y: 5_000 },
    };
    assert!(needs_new_target(&near, &Target { target: Vec2 { x: 4_000, y: 0 } }));
    assert!(!needs_new_target(&near, &Target { target: Vec2 { x: 5_000, y: 0 } }));
}

#[test]
fn arrived_entity_draws_target_inside_map() {
    let mut store = EntityStore::new();
    store.create(chicken_at(300_000_000, 0, 300_000_000, 0));
    select_new_random_target(&mut store);
    let c = chicken_of(&store, 0);
    let t = c.target.target;
    assert!(-2_500_000 <= t.x && t.x < 2_500_000, "target x {0} out of map", t.x);
    assert!(-2_500_000 <= t.y && t.y < 2_500_000, "target y {0} out of map", t.y);
    assert_eq!(c.transform.translation, Vec2 { x: 300_000_000, y: 0 });
}

#[test]
fn distant_entity_keeps_its_target() {
    let mut store = EntityStore::new();
    store.create(chicken_at(0, 0, 100_000, 0));
    select_new_random_target(&mut store);
    let c = chicken_of(&store, 0);
    assert_eq!(c.target.target, Vec2 { x: 100_000, y: 0 });
}

#[test]
fn facing_follows_direction_of_travel() {
    let mut store = EntityStore::new();
    store.create(chicken_at(0, 0, 100_000, 0));
    let flip = |store: &mut EntityStore, sx: i64, tx: i64| {
        let mut c = chicken_of(store, 0);
        c.transform.scale.x = sx;
        c.target.target.x = tx;
        store.slots[0].data = Some(EntityData::Chicken(c));
        flip_sprite(store);
        chicken_of(store, 0).transform.scale.x
    };
    assert_eq!(flip(&mut store, -5_000, 100_000), 5_000);
    assert_eq!(flip(&mut store, 5_000, 100_000), 5_000);
    assert_eq!(flip(&mut store, 5_000, -100_000), -5_000);
    assert_eq!(flip(&mut store, -5_000, -100_000), -5_000);
    assert_eq!(flip(&mut store, -5_000, 0), -5_000);
    assert_eq!(flip(&mut store, 5_000, 0), 5_000);
}

#[test]
fn egg_laid_exactly_when_period_crossed() {
    let mut store = EntityStore::new();
    store.create(chicken_at(7_000, 8_000, 100_000, 0));
    spawn_eggs(&mut store, 9_999);
    assert_eq!(store.pending_spawns.len(), 0);
    assert_eq!(chicken_of(&store, 0).egg_spawn_timer.timer.elapsed_ms, 9_999);
    spawn_eggs(&mut store, 1);
    assert_eq!(store.pending_spawns.len(), 1);
    assert_eq!(chicken_of(&store, 0).egg_spawn_timer.timer.elapsed_ms, 0);
    match &store.pending_spawns[0] {
        EntityData::Egg(e) => {
            assert_eq!(e.transform.translation, Vec2 { x: 7_000, y: 8_000 });
            assert_eq!(e.egg_hatch_timer.timer.elapsed_ms, 0);
        },
        EntityData::Chicken(_) => panic!("expected an egg"),
    }
}

#[test]
fn one_pass_lays_one_egg_and_resets_timer() {
    let mut store = EntityStore::new();
    store.create(chicken_at(12_345, -6_789, 100_000, 0));
    spawn_eggs(&mut store, 10_000);
    assert_eq!(store.pending_spawns.len(), 1);
    assert_eq!(chicken_of(&store, 0).egg_spawn_timer.timer.elapsed_ms, 0);
    store.apply_pending();
    assert_eq!(store.slot_count(), 2);
    let e = egg_of(&store, 1);
    assert_eq!(e.transform.translation, Vec2 { x: 12_345, y: -6_789 });
}

#[test]
fn egg_hatches_into_one_child_at_its_position() {
    let mut store = EntityStore::new();
    let transform = Transform {
        translation: Vec2 { x: 7_000, y: 8_000 },
        scale: Vec2 { x: 5_000, y: 5_000 },
    };
    let h = store.create(EntityData::Egg(EggBundle::from_chicken(&transform)));
    hatch_eggs(&mut store, 4_999);
    assert_eq!(store.pending_spawns.len(), 0);
    hatch_eggs(&mut store, 1);
    assert_eq!(store.pending_spawns.len(), 1);
    assert_eq!(store.pending_despawns.len(), 1);
    store.apply_pending();
    assert!(store.get(h).is_err());
    let occupied: Vec<usize> = (0..store.slot_count())
        .filter(|&i| store.slots[i].data.is_some())
        .collect();
    assert_eq!(occupied.len(), 1);
    let c = chicken_of(&store, occupied[0]);
    assert_eq!(c.transform.translation, Vec2 { x: 7_000, y: 8_000 });
    match c.chicken_data.state {
        ChickenState::Child(t) => {
            assert_eq!(t.elapsed_ms, 0);
            assert_eq!(t.duration_ms, 5_000);
        },
        ChickenState::Adult => panic!("hatchling must be a child"),
    }
    assert_eq!(c.target.target, Vec2 { x: 7_000, y: 8_000 });
    assert_eq!(c.egg_spawn_timer.timer.elapsed_ms, 0);
}

#[test]
fn hatchling_target_is_pulled_into_the_map() {
    let mut store = EntityStore::new();
    let transform = Transform {
        translation: Vec2 { x: 3_000_000, y: -3_000_000 },
        scale: Vec2 { x: 5_000, y: 5_000 },
    };
    store.create(EntityData::Egg(EggBundle::from_chicken(&transform)));
    hatch_eggs(&mut store, 5_000);
    store.apply_pending();
    let c = chicken_of(&store, 0);
    assert_eq!(c.transform.translation, Vec2 { x: 3_000_000, y: -3_000_000 });
    assert_eq!(c.target.target, Vec2 { x: 2_500_000, y: -2_500_000 });
}

#[test]
fn child_grows_up_exactly_once_at_five_seconds() {
    let mut store = EntityStore::new();
    let transform = Transform {
        translation: Vec2 { x: 0, y: 0 },
        scale: Vec2 { x: 5_000, y: 5_000 },
    };
    store.create(EntityData::Chicken(ChickenBundle::child(&transform)));
    grow_chickens(&mut store, 4_999);
    match chicken_of(&store, 0).chicken_data.state {
        ChickenState::Child(t) => assert_eq!(t.elapsed_ms, 4_999),
        ChickenState::Adult => panic!("grew too early"),
    }
    assert_eq!(chicken_of(&store, 0).transform.scale, Vec2 { x: 2_500, y: 2_500 });
    grow_chickens(&mut store, 1);
    assert!(matches!(chicken_of(&store, 0).chicken_data.state, ChickenState::Adult));
    assert_eq!(chicken_of(&store, 0).transform.scale, Vec2 { x: 5_000, y: 5_000 });
    grow_chickens(&mut store, 10_000);
    assert!(matches!(chicken_of(&store, 0).chicken_data.state, ChickenState::Adult));
}

#[test]
fn scale_class_follows_lifecycle() {
    let parent = Transform {
        translation: Vec2 { x: 100, y: 200 },
        scale: Vec2 { x: -5_000, y: 5_000 },
    };
    let egg = EggBundle::from_chicken(&parent);
    assert_eq!(egg.transform.scale, Vec2 { x: -2_000, y: 2_000 });
    let chick = ChickenBundle::child(&egg.transform);
    assert_eq!(chick.transform.scale, Vec2 { x: -2_500, y: 2_500 });
    let mut store = EntityStore::new();
    store.create(EntityData::Chicken(chick));
    grow_chickens(&mut store, 5_000);
    let grown = chicken_of(&store, 0);
    assert!(matches!(grown.chicken_data.state, ChickenState::Adult));
    assert_eq!(grown.transform.scale, Vec2 { x: -5_000, y: 5_000 });
}

#[test]
fn crossing_the_map_reaches_the_target() {
    let mut store = EntityStore::new();
    store.create(chicken_at(0, 0, 100_000, 0));
    move_entity(&mut store, 480);
    move_entity(&mut store, 480);
    let c = chicken_of(&store, 0);
    assert_eq!(c.transform.translation, Vec2 { x: 96_000, y: 0 });
    let d = dist_milli(c.transform.translation, c.target.target);
    assert!(d < 5_000);
    assert!(needs_new_target(&c.transform, &c.target));
    select_new_random_target(&mut store);
    let after = chicken_of(&store, 0);
    let t = after.target.target;
    assert!(-2_500_000 <= t.x && t.x < 2_500_000);
    assert!(-2_500_000 <= t.y && t.y < 2_500_000);
}

#[test]
fn egg_then_child_then_adult_through_ticks() {
    let mut store = EntityStore::new();
    let transform = Transform {
        translation: Vec2 { x: 7_000, y: 8_000 },
        scale: Vec2 { x: 5_000, y: 5_000 },
    };
    let egg = store.create(EntityData::Egg(EggBundle::from_chicken(&transform)));
    tick(&mut store, 5_000);
    assert!(store.get(egg).is_err());
    let occupied: Vec<usize> = (0..store.slot_count())
        .filter(|&i| store.slots[i].data.is_some())
        .collect();
    assert_eq!(occupied.len(), 1);
    assert!(matches!(
        chicken_of(&store, occupied[0]).chicken_data.state,
        ChickenState::Child(_)
    ));
    grow_chickens(&mut store, 5_000);
    assert!(matches!(
        chicken_of(&store, occupied[0]).chicken_data.state,
        ChickenState::Adult
    ));
}

#[test]
fn ticks_keep_population_growing() {
    let mut store = EntityStore::new();
    setup_chickens(&mut store);
    for _ in 0..4 {
        tick(&mut store, 5_000);
    }
    let chickens = store
        .slots
        .iter()
        .filter(|s| matches!(s.data, Some(EntityData::Chicken(_))))
        .count();
    let eggs = store
        .slots
        .iter()
        .filter(|s| matches!(s.data, Some(EntityData::Egg(_))))
        .count();
    assert_eq!(chickens, 10);
    assert_eq!(eggs, 5);
}
