//! A tick-driven simulation of a small population of 2D agents
//! ("chickens") that wander toward random targets, lay timed eggs,
//! and grow from child to adult.
//!
//! All distances are held in milli-units (one thousandth of a world
//! unit) and all durations in milliseconds, so that every quantity is
//! an integer and every system carries a full functional contract.

use vstd::prelude::*;

mod camera;
mod chicken;
mod entity;
mod geom;
mod laws;
mod store;
mod timer;

pub use camera::CameraPlugin;
pub use camera::move_with_mouse;
pub use camera::zoom;
pub use chicken::ChickenBundle;
pub use chicken::ChickenData;
pub use chicken::ChickenPlugin;
pub use chicken::ChickenState;
pub use chicken::EggBundle;
pub use chicken::EggHatchTimer;
pub use chicken::EggSpawnTimer;
pub use chicken::grow_chickens;
pub use chicken::hatch_eggs;
pub use chicken::setup_chickens;
pub use chicken::spawn_eggs;
pub use entity::EntityPlugin;
pub use entity::Target;
pub use entity::flip_sprite;
pub use entity::move_entity;
pub use entity::moved_translation;
pub use entity::needs_new_target;
pub use entity::select_new_random_target;
pub use geom::Transform;
pub use geom::Vec2;
pub use geom::clamp_i64;
pub use geom::dist_milli;
pub use geom::isqrt;
pub use store::EntityData;
pub use store::EntityStore;
pub use store::Handle;
pub use store::Slot;
pub use store::StaleHandle;
pub use store::apply_despawns_spec;
pub use store::apply_spawns_spec;
pub use store::create_spec;
pub use store::destroy_spec;
pub use store::first_free;
pub use store::holds_chicken;
pub use store::holds_egg;
pub use store::next_generation;
pub use store::slots_wf;
pub use timer::Timer;
pub use timer::TimerMode;
pub use chicken::adult_bundle;
pub use chicken::child_bundle;
pub use chicken::egg_bundle;
pub use chicken::chicks_hatched;
pub use chicken::eggs_spawned;
pub use chicken::grow_slot_spec;
pub use chicken::grown_state;
pub use chicken::hatch_slot_spec;
pub use chicken::hatched_handles;
pub use chicken::repro_slot_spec;
pub use chicken::repro_slots_spec;
pub use entity::arrived;
pub use entity::axis_moved;
pub use entity::flip_slot_spec;
pub use entity::flipped_scale_x;
pub use entity::move_slot_spec;
pub use entity::moved_x;
pub use entity::moved_y;
pub use entity::retarget_slot_rel;
pub use entity::speed_step;
pub use entity::wander_rel;
pub use geom::clamp_spec;
pub use geom::dist;
pub use geom::dist_i;
pub use geom::dist_sq;
pub use geom::dist_sq_i;
pub use geom::sqrt_floor;

verus! {

/// Side length of the square map, in milli-units (5000 world units).
pub const MAP_SIZE_MILLI: i64 = 5_000_000;

/// Half the map side, in milli-units: targets always lie in
/// `[-HALF_MAP_SIZE_MILLI, HALF_MAP_SIZE_MILLI]` on each axis.
pub const HALF_MAP_SIZE_MILLI: i64 = 2_500_000;

/// Movement speed: 100 world units per second is 100 milli-units per
/// millisecond.
pub const SPEED_MILLI_PER_MS: i64 = 100;

/// Distance below which an entity counts as arrived at its target
/// (5 world units).
pub const PROXIMITY_MILLI: i64 = 5_000;

/// Largest accepted time delta for one tick (one hour). A bound is
/// needed so that every step fits comfortably in 64-bit arithmetic.
pub const MAX_TICK_MS: u64 = 3_600_000;

/// Largest displacement a single tick can produce, in milli-units:
/// `SPEED_MILLI_PER_MS * MAX_TICK_MS`.
pub const MAX_STEP_MILLI: i64 = 360_000_000;

/// Positions never leave `[-POS_LIMIT_MILLI, POS_LIMIT_MILLI]` on
/// either axis: an entity can overshoot a target at the map edge by at
/// most one step, `HALF_MAP_SIZE_MILLI + MAX_STEP_MILLI`.
pub const POS_LIMIT_MILLI: i64 = 362_500_000;

/// Magnitude bound on scale components, in milli-units.
pub const SCALE_LIMIT_MILLI: i64 = 1_000_000;

/// An adult or child chicken lays an egg every 10 seconds.
pub const EGG_SPAWN_PERIOD_MS: u64 = 10_000;

/// An egg hatches 5 seconds after it was laid.
pub const EGG_HATCH_PERIOD_MS: u64 = 5_000;

/// A child chicken becomes an adult 5 seconds after hatching.
pub const GROWTH_PERIOD_MS: u64 = 5_000;

/// Visual scale of an adult chicken sprite, in milli-units (5 world
/// units). Each lifecycle class is drawn at its own fixed magnitude;
/// the sign still encodes facing.
pub const CHICKEN_SCALE_MILLI: i64 = 5_000;

/// Visual scale of a child chicken sprite, in milli-units.
pub const CHILD_SCALE_MILLI: i64 = 2_500;

/// Visual scale of an egg sprite, in milli-units.
pub const EGG_SCALE_MILLI: i64 = 2_000;

/// Number of adult chickens placed at simulation start.
pub const INITIAL_CHICKENS: usize = 5;

/// How one whole tick turns the slots `pre` into the slots `post`:
/// some wandering pass (movement, then a targeting pass whose draws
/// are the one free choice, then facing) yields an intermediate
/// state `mid`; the lifecycle passes advance every timer of `mid`,
/// and the structural changes they queue — one egg per spawn timer
/// that fired, one chick and one destroyed egg per hatch timer that
/// fired, in slot order — are applied at the end.
pub open spec fn tick_rel(pre: Seq<Slot>, post: Seq<Slot>, dt_ms: int) -> bool {
    exists|mid: Seq<Slot>|
        {
            &&& mid.len() == pre.len()
            &&& (forall|i: int| 0 <= i < mid.len() ==> wander_rel(pre[i], #[trigger] mid[i], dt_ms))
            &&& post == apply_spawns_spec(
                apply_despawns_spec(
                    Seq::new(
                        mid.len(),
                        |i: int|
                            grow_slot_spec(
                                hatch_slot_spec(repro_slot_spec(mid[i], dt_ms), dt_ms),
                                dt_ms,
                            ),
                    ),
                    hatched_handles(repro_slots_spec(mid, dt_ms), dt_ms, mid.len() as int),
                ),
                eggs_spawned(mid, dt_ms, mid.len() as int) + chicks_hatched(
                    repro_slots_spec(mid, dt_ms),
                    dt_ms,
                    mid.len() as int,
                ),
            )
        }
}

/// One simulation tick: run the wandering systems (movement,
/// targeting, facing) and the lifecycle systems (reproduction,
/// hatching, growth) over every entity, then apply the structural
/// changes they queued. No system observes an entity created or
/// destroyed within the same tick, the queues end the tick empty,
/// and no chicken is ever destroyed: a slot that held a chicken
/// still holds one, so the chicken population never shrinks.
pub fn tick(store: &mut EntityStore, dt_ms: u64)
    requires
        old(store).wf(),
        dt_ms <= MAX_TICK_MS,
        old(store).pending_spawns@.len() == 0,
        old(store).pending_despawns@.len() == 0,
        3 * old(store).slots@.len() < usize::MAX,
    ensures
        final(store).wf(),
        final(store).pending_spawns@.len() == 0,
        final(store).pending_despawns@.len() == 0,
        old(store).slots@.len() <= final(store).slots@.len() <= 3 * old(store).slots@.len(),
        tick_rel(old(store).slots@, final(store).slots@, dt_ms as int),
        forall|i: int|
            0 <= i < old(store).slots@.len() && store::holds_chicken(old(store).slots@[i])
                ==> store::holds_chicken(#[trigger] final(store).slots@[i]),
{
    let ghost n = old(store).slots@.len() as int;
    EntityPlugin::run(store, dt_ms);
    let ghost wandered = store.slots@;
    ChickenPlugin::run(store, dt_ms);
    let ghost repro = chicken::repro_slots_spec(wandered, dt_ms as int);
    proof {
        chicken::lemma_eggs_spawned_len(wandered, dt_ms as int, n);
        chicken::lemma_chicks_hatched_len(repro, dt_ms as int, n);
    }
    let ghost s_post = store.slots@;
    let ghost hs = store.pending_despawns@;
    let ghost ds = store.pending_spawns@;
    store.apply_pending();
    proof {
        assert(hs =~= chicken::hatched_handles(repro, dt_ms as int, n));
        let grown = Seq::new(
            wandered.len(),
            |i: int|
                chicken::grow_slot_spec(
                    chicken::hatch_slot_spec(
                        chicken::repro_slot_spec(wandered[i], dt_ms as int),
                        dt_ms as int,
                    ),
                    dt_ms as int,
                ),
        );
        assert(s_post =~= grown);
        assert(ds =~= chicken::eggs_spawned(wandered, dt_ms as int, n) + chicken::chicks_hatched(
            repro,
            dt_ms as int,
            n,
        ));
        assert(tick_rel(old(store).slots@, store.slots@, dt_ms as int));
        chicken::lemma_hatched_handles_point_at_eggs(repro, dt_ms as int, n);
        assert forall|i: int|
            0 <= i < n && store::holds_chicken(old(store).slots@[i]) implies store::holds_chicken(
            store.slots@[i],
        ) by {
            let s0 = old(store).slots@[i];
            let m = choose|m: store::Slot|
                entity::retarget_slot_rel(entity::move_slot_spec(s0, dt_ms as int), m)
                    && wandered[i] == entity::flip_slot_spec(m);
            assert(store::holds_chicken(entity::move_slot_spec(s0, dt_ms as int)));
            assert(store::holds_chicken(m));
            assert(store::holds_chicken(wandered[i]));
            assert(repro[i] == chicken::repro_slot_spec(wandered[i], dt_ms as int));
            assert(store::holds_chicken(repro[i]));
            assert(s_post[i] == chicken::grow_slot_spec(
                chicken::hatch_slot_spec(repro[i], dt_ms as int),
                dt_ms as int,
            ));
            assert(store::holds_chicken(s_post[i]));
            assert forall|k: int| 0 <= k < hs.len() implies (#[trigger] hs[k]).index != i by {
                assert(store::holds_egg(repro[hs[k].index as int]));
            }
            store::lemma_apply_despawns_untouched(s_post, hs, i);
            store::lemma_apply_spawns_occupied(store::apply_despawns_spec(s_post, hs), ds, i);
        }
    }
}

} // verus!
