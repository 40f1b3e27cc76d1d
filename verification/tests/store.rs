//! The entity arena: handles, stale-handle errors, slot reuse, and
//! deferred structural changes.

use chicken_sim::ChickenBundle;
use chicken_sim::EggBundle;
use chicken_sim::EntityData;
use chicken_sim::EntityStore;
use chicken_sim::Handle;
use chicken_sim::StaleHandle;
use chicken_sim::Transform;
use chicken_sim::Vec2;

fn egg_at(x: i64, y: i64) -> EntityData {
    let transform = Transform {
        translation: Vec2 { x, y },
        scale: Vec2 { x: 5_000, y: 5_000 },
    };
    EntityData::Egg(EggBundle::from_chicken(&transform))
}

#[test]
fn create_then_get() {
    let mut store = EntityStore::new();
    let h = store.create(EntityData::Chicken(ChickenBundle::adult()));
    let got = store.get(h).unwrap();
    match got {
        EntityData::Chicken(c) => assert_eq!(c.transform.translation, Vec2 { x: 0, y: 0 }),
        EntityData::Egg(_) => panic!("expected a chicken"),
    }
}

#[test]
fn destroyed_handle_goes_stale() {
    let mut store = EntityStore::new();
    let h = store.create(egg_at(1, 2));
    assert!(store.destroy(h).is_ok());
    assert_eq!(store.get(h), Err(StaleHandle));
    assert_eq!(store.destroy(h), Err(StaleHandle));
}

#[test]
fn unknown_handle_is_stale() {
    let store = EntityStore::new();
    let h = Handle { index: 7, generation: 0 };
    assert_eq!(store.get(h), Err(StaleHandle));
}

#[test]
fn slot_reuse_bumps_generation() {
    let mut store = EntityStore::new();
    let first = store.create(egg_at(1, 1));
    let _second = store.create(egg_at(2, 2));
    store.destroy(first).unwrap();
    let reused = store.create(egg_at(3, 3));
    assert_eq!(reused.index, first.index);
    assert_ne!(reused.generation, first.generation);
    assert_eq!(store.get(first), Err(StaleHandle));
    assert!(store.get(reused).is_ok());
    assert_eq!(store.slot_count(), 2);
}

#[test]
fn queued_changes_wait_for_apply() {
    let mut store = EntityStore::new();
    let h = store.create(egg_at(4, 4));
    store.queue_despawn(h);
    store.queue_spawn(egg_at(5, 5));
    assert!(store.get(h).is_ok());
    assert_eq!(store.slot_count(), 1);
    store.apply_pending();
    assert_eq!(store.get(h), Err(StaleHandle));
    let occupied: Vec<&EntityData> =
        store.slots.iter().filter_map(|s| s.data.as_ref()).collect();
    assert_eq!(occupied.len(), 1);
    match occupied[0] {
        EntityData::Egg(e) => assert_eq!(e.transform.translation, Vec2 { x: 5, y: 5 }),
        EntityData::Chicken(_) => panic!("expected an egg"),
    }
}
