//! The wandering behavior shared by every moving entity: a movement
//! target, the fixed-speed movement step toward it, target
//! reselection on arrival, and the facing flip that follows the
//! direction of travel.

use vstd::arithmetic::div_mod::lemma_div_is_ordered;
use vstd::arithmetic::div_mod::lemma_div_multiples_vanish;
use vstd::arithmetic::div_mod::lemma_div_pos_is_pos;
use vstd::arithmetic::mul::lemma_mul_inequality;
use vstd::prelude::*;

use crate::HALF_MAP_SIZE_MILLI;
use crate::MAX_STEP_MILLI;
use crate::MAX_TICK_MS;
use crate::POS_LIMIT_MILLI;
use crate::PROXIMITY_MILLI;
use crate::SPEED_MILLI_PER_MS;
use crate::chicken::ChickenBundle;
use crate::geom::Transform;
use crate::geom::Vec2;
use crate::geom::dist;
use crate::geom::dist_milli;
use crate::geom::dist_sq;
use crate::geom::lemma_sqrt_floor_bounds;
use crate::geom::sqrt_floor;
use crate::geom::lemma_sqrt_floor_monotone;
use crate::geom::lemma_sqrt_floor_unique;
use crate::store::EntityData;
use crate::store::EntityStore;
use crate::store::Slot;

verus! {

/// The point an entity currently moves toward.
#[derive(Clone, Copy, PartialEq, Eq, Structural, Debug)]
pub struct Target {
    pub target: Vec2,
}

impl Default for Target {
    /// A fresh target sits at the origin.
    fn default() -> (r: Target)
        ensures
            r.target.x == 0,
            r.target.y == 0,
    {
        Target { target: Vec2 { x: 0, y: 0 } }
    }
}

/// Distance covered in `dt_ms` at full speed, in milli-units.
pub open spec fn speed_step(dt_ms: int) -> int {
    SPEED_MILLI_PER_MS * dt_ms
}

/// One coordinate after moving from `p` toward `q` by `step` along a
/// straight line of length `d`: the axis share `|q - p| / d` of the
/// step, rounded toward zero.
pub open spec fn axis_moved(p: int, q: int, step: int, d: int) -> int {
    if q >= p {
        p + ((q - p) * step) / d
    } else {
        p - ((p - q) * step) / d
    }
}

/// The x coordinate after one movement step from `p` toward `t`.
/// Standing exactly on the target, the direction degenerates to
/// "rightward": the angle of a zero vector is conventionally zero,
/// and the degenerate input is deliberately not special-cased.
pub open spec fn moved_x(p: Vec2, t: Vec2, dt_ms: int) -> int {
    let d = dist(p, t);
    if d == 0 {
        p.x + speed_step(dt_ms)
    } else {
        axis_moved(p.x as int, t.x as int, speed_step(dt_ms), d)
    }
}

/// The y coordinate after one movement step from `p` toward `t`.
pub open spec fn moved_y(p: Vec2, t: Vec2, dt_ms: int) -> int {
    let d = dist(p, t);
    if d == 0 {
        p.y as int
    } else {
        axis_moved(p.y as int, t.y as int, speed_step(dt_ms), d)
    }
}

/// A distance of zero means standing exactly on the other point.
pub proof fn lemma_zero_dist(p: Vec2, t: Vec2)
    requires
        dist(p, t) == 0,
    ensures
        p.x == t.x,
        p.y == t.y,
{
    lemma_sqrt_floor_bounds(dist_sq(p, t) as nat);
    assert((t.x - p.x) * (t.x - p.x) >= 0 && (t.y - p.y) * (t.y - p.y) >= 0) by (nonlinear_arith);
    let n = dist_sq(p, t) as nat;
    let s = sqrt_floor(n);
    assert(n < (s + 1) * (s + 1));
    assert((s + 1) * (s + 1) == 1) by (nonlinear_arith)
        requires
            s == 0,
    ;
    assert(dist_sq(p, t) == 0);
    assert((t.x - p.x) * (t.x - p.x) == 0 ==> t.x - p.x == 0) by (nonlinear_arith);
    assert((t.y - p.y) * (t.y - p.y) == 0 ==> t.y - p.y == 0) by (nonlinear_arith);
}

/// Neither coordinate difference exceeds the Euclidean distance.
pub proof fn lemma_axis_le_dist(p: Vec2, t: Vec2)
    ensures
        -dist(p, t) <= t.x - p.x <= dist(p, t),
        -dist(p, t) <= t.y - p.y <= dist(p, t),
{
    let dx = t.x - p.x;
    let dy = t.y - p.y;
    let adx = if dx >= 0 { dx } else { -dx };
    let ady = if dy >= 0 { dy } else { -dy };
    assert(adx * adx == dx * dx && ady * ady == dy * dy) by (nonlinear_arith)
        requires
            (adx == dx || adx == -dx) && (ady == dy || ady == -dy),
    ;
    assert(dx * dx >= 0 && dy * dy >= 0) by (nonlinear_arith);
    assert((adx + 1) * (adx + 1) == adx * adx + 2 * adx + 1) by (nonlinear_arith);
    assert((ady + 1) * (ady + 1) == ady * ady + 2 * ady + 1) by (nonlinear_arith);
    lemma_sqrt_floor_monotone((adx * adx) as nat, dist_sq(p, t) as nat);
    lemma_sqrt_floor_monotone((ady * ady) as nat, dist_sq(p, t) as nat);
    lemma_sqrt_floor_unique((adx * adx) as nat, adx as nat);
    lemma_sqrt_floor_unique((ady * ady) as nat, ady as nat);
}

/// Move one coordinate from `p` toward `q` by this axis' share of the
/// step. The result never passes the target by more than the step.
fn axis_move(p: i64, q: i64, step: u64, d: u64) -> (r: i64)
    requires
        0 < d,
        step <= MAX_STEP_MILLI,
        -POS_LIMIT_MILLI <= p <= POS_LIMIT_MILLI,
        -POS_LIMIT_MILLI <= q <= POS_LIMIT_MILLI,
        q - p <= d,
        p - q <= d,
    ensures
        r == axis_moved(p as int, q as int, step as int, d as int),
        q >= p ==> p <= r <= q + step,
        q < p ==> q - step <= r <= p,
{
    if q >= p {
        let diff: u64 = (q - p) as u64;
        proof {
            assert(diff * step <= 725_000_000 * 360_000_000) by (nonlinear_arith)
                requires
                    0 <= diff <= 725_000_000 && 0 <= step <= 360_000_000,
            ;
            lemma_mul_inequality(diff as int, d as int, step as int);
            lemma_div_is_ordered(diff as int * step as int, d as int * step as int, d as int);
            lemma_div_multiples_vanish(step as int, d as int);
            lemma_div_pos_is_pos(diff as int * step as int, d as int);
            assert(diff as int * step as int >= 0) by (nonlinear_arith)
                requires
                    diff >= 0 && step >= 0,
            ;
        }
        let m: u64 = diff * step / d;
        p + (m as i64)
    } else {
        let diff: u64 = (p - q) as u64;
        proof {
            assert(diff * step <= 725_000_000 * 360_000_000) by (nonlinear_arith)
                requires
                    0 <= diff <= 725_000_000 && 0 <= step <= 360_000_000,
            ;
            lemma_mul_inequality(diff as int, d as int, step as int);
            lemma_div_is_ordered(diff as int * step as int, d as int * step as int, d as int);
            lemma_div_multiples_vanish(step as int, d as int);
            lemma_div_pos_is_pos(diff as int * step as int, d as int);
            assert(diff as int * step as int >= 0) by (nonlinear_arith)
                requires
                    diff >= 0 && step >= 0,
            ;
        }
        let m: u64 = diff * step / d;
        p - (m as i64)
    }
}

/// One movement step of a whole position: from `p` straight toward
/// `t` at full speed for `dt_ms`. The result stays within the
/// position bound.
pub fn moved_translation(p: Vec2, t: Vec2, dt_ms: u64) -> (r: Vec2)
    requires
        p.in_range(POS_LIMIT_MILLI as int),
        t.in_range(HALF_MAP_SIZE_MILLI as int),
        dt_ms <= MAX_TICK_MS,
    ensures
        r.x == moved_x(p, t, dt_ms as int),
        r.y == moved_y(p, t, dt_ms as int),
        r.in_range(POS_LIMIT_MILLI as int),
{
    let d: u64 = dist_milli(p, t);
    let step: u64 = 100 * dt_ms;
    proof {
        assert(step == speed_step(dt_ms as int));
    }
    if d == 0 {
        proof {
            lemma_zero_dist(p, t);
        }
        Vec2 { x: p.x + (step as i64), y: p.y }
    } else {
        proof {
            lemma_axis_le_dist(p, t);
        }
        let x = axis_move(p.x, t.x, step, d);
        let y = axis_move(p.y, t.y, step, d);
        Vec2 { x, y }
    }
}

/// What one movement pass does to a slot: a chicken walks one step
/// toward its target; eggs and free slots are untouched.
pub open spec fn move_slot_spec(s: Slot, dt_ms: int) -> Slot {
    match s.data {
        Some(EntityData::Chicken(c)) => Slot {
            generation: s.generation,
            data: Some(
                EntityData::Chicken(
                    ChickenBundle {
                        egg_spawn_timer: c.egg_spawn_timer,
                        target: c.target,
                        chicken_data: c.chicken_data,
                        transform: Transform {
                            translation: Vec2 {
                                x: moved_x(c.transform.translation, c.target.target, dt_ms) as i64,
                                y: moved_y(c.transform.translation, c.target.target, dt_ms) as i64,
                            },
                            scale: c.transform.scale,
                        },
                    },
                ),
            ),
        },
        _ => s,
    }
}

/// MovementSystem: advance every chicken one step toward its current
/// target at fixed speed. Nothing else about any entity changes, and
/// no entity is created or destroyed.
pub fn move_entity(store: &mut EntityStore, dt_ms: u64)
    requires
        old(store).wf(),
        dt_ms <= MAX_TICK_MS,
    ensures
        final(store).wf(),
        final(store).slots@.len() == old(store).slots@.len(),
        forall|i: int|
            0 <= i < old(store).slots@.len() ==> final(store).slots@[i] == move_slot_spec(
                old(store).slots@[i],
                dt_ms as int,
            ),
        final(store).pending_spawns@ == old(store).pending_spawns@,
        final(store).pending_despawns@ == old(store).pending_despawns@,
{
    let n = store.slots.len();
    let mut i: usize = 0;
    while i < n
        invariant
            i <= n,
            n == store.slots@.len(),
            old(store).slots@.len() == n,
            store.wf(),
            dt_ms <= MAX_TICK_MS,
            forall|j: int|
                0 <= j < i ==> store.slots@[j] == move_slot_spec(
                    old(store).slots@[j],
                    dt_ms as int,
                ),
            forall|j: int| i <= j < n ==> store.slots@[j] == old(store).slots@[j],
            store.pending_spawns@ == old(store).pending_spawns@,
            store.pending_despawns@ == old(store).pending_despawns@,
        decreases n - i,
    {
        let slot = store.slots[i];
        match slot.data {
            Some(EntityData::Chicken(c)) => {
                let translation = moved_translation(
                    c.transform.translation,
                    c.target.target,
                    dt_ms,
                );
                let moved = ChickenBundle {
                    egg_spawn_timer: c.egg_spawn_timer,
                    target: c.target,
                    chicken_data: c.chicken_data,
                    transform: Transform { translation, scale: c.transform.scale },
                };
                store.slots[i] = Slot {
                    generation: slot.generation,
                    data: Some(EntityData::Chicken(moved)),
                };
            },
            _ => {},
        }
        i += 1;
    }
}

/// An entity counts as arrived when it stands within the proximity
/// threshold of its target.
pub open spec fn arrived(c: ChickenBundle) -> bool {
    dist(c.transform.translation, c.target.target) < PROXIMITY_MILLI
}

/// Whether this entity is close enough to its target to need a new
/// one.
pub fn needs_new_target(transform: &Transform, target: &Target) -> (b: bool)
    requires
        transform.translation.in_range(POS_LIMIT_MILLI as int),
        target.target.in_range(POS_LIMIT_MILLI as int),
    ensures
        b == (dist(transform.translation, target.target) < PROXIMITY_MILLI),
{
    let d: u64 = dist_milli(transform.translation, target.target);
    d < 5_000
}

/// Relies on rand::thread_rng and rand::Rng::gen_range over the
/// half-open range `lo..hi`: the draw lies within the range.
/// gen_range panics only on an empty range, which `lo < hi` rules
/// out.
#[verifier::external_body]
fn gen_range_i64(lo: i64, hi: i64) -> (r: i64)
    requires
        lo < hi,
    ensures
        lo <= r < hi,
{
    rand::Rng::gen_range(&mut rand::thread_rng(), lo..hi)
}

/// How one targeting pass may change a slot: a chicken that has
/// arrived gets some freshly drawn target and keeps everything else;
/// any other slot is untouched. A fresh draw lands in the half-open
/// square `[-HALF_MAP_SIZE_MILLI, HALF_MAP_SIZE_MILLI)` on each axis,
/// which an old target (a clamped hatch position can sit exactly on
/// the upper edge) need not satisfy: a pass that drew nothing does
/// not meet this relation.
pub open spec fn retarget_slot_rel(s: Slot, s2: Slot) -> bool {
    match s.data {
        Some(EntityData::Chicken(c)) => {
            if arrived(c) {
                match s2.data {
                    Some(EntityData::Chicken(c2)) => {
                        &&& s2.generation == s.generation
                        &&& c2.transform == c.transform
                        &&& c2.egg_spawn_timer == c.egg_spawn_timer
                        &&& c2.chicken_data == c.chicken_data
                        &&& -HALF_MAP_SIZE_MILLI <= c2.target.target.x < HALF_MAP_SIZE_MILLI
                        &&& -HALF_MAP_SIZE_MILLI <= c2.target.target.y < HALF_MAP_SIZE_MILLI
                    },
                    _ => false,
                }
            } else {
                s2 == s
            }
        },
        _ => s2 == s,
    }
}

/// TargetingSystem: every chicken that has arrived at its target
/// draws a new one uniformly at random from the map square; everyone
/// else keeps theirs.
pub fn select_new_random_target(store: &mut EntityStore)
    requires
        old(store).wf(),
    ensures
        final(store).wf(),
        final(store).slots@.len() == old(store).slots@.len(),
        forall|i: int|
            0 <= i < old(store).slots@.len() ==> retarget_slot_rel(
                old(store).slots@[i],
                #[trigger] final(store).slots@[i],
            ),
        final(store).pending_spawns@ == old(store).pending_spawns@,
        final(store).pending_despawns@ == old(store).pending_despawns@,
{
    let n = store.slots.len();
    let mut i: usize = 0;
    while i < n
        invariant
            i <= n,
            n == store.slots@.len(),
            old(store).slots@.len() == n,
            store.wf(),
            forall|j: int|
                0 <= j < i ==> retarget_slot_rel(
                    old(store).slots@[j],
                    #[trigger] store.slots@[j],
                ),
            forall|j: int| i <= j < n ==> store.slots@[j] == old(store).slots@[j],
            store.pending_spawns@ == old(store).pending_spawns@,
            store.pending_despawns@ == old(store).pending_despawns@,
        decreases n - i,
    {
        let slot = store.slots[i];
        match slot.data {
            Some(EntityData::Chicken(c)) => {
                if needs_new_target(&c.transform, &c.target) {
                    let nx = gen_range_i64(-HALF_MAP_SIZE_MILLI, HALF_MAP_SIZE_MILLI);
                    let ny = gen_range_i64(-HALF_MAP_SIZE_MILLI, HALF_MAP_SIZE_MILLI);
                    let retargeted = ChickenBundle {
                        egg_spawn_timer: c.egg_spawn_timer,
                        target: Target { target: Vec2 { x: nx, y: ny } },
                        chicken_data: c.chicken_data,
                        transform: c.transform,
                    };
                    store.slots[i] = Slot {
                        generation: slot.generation,
                        data: Some(EntityData::Chicken(retargeted)),
                    };
                }
            },
            _ => {},
        }
        i += 1;
    }
}

/// The x scale after one facing pass: the sign flips to match the
/// horizontal direction of travel, and nothing happens when the
/// target sits straight above or below.
pub open spec fn flipped_scale_x(px: int, tx: int, sx: int) -> int {
    if tx > px && sx < 0 {
        -sx
    } else if tx < px && sx > 0 {
        -sx
    } else {
        sx
    }
}

/// What one facing pass does to a slot: a chicken's sprite turns
/// toward its target; eggs and free slots are untouched.
pub open spec fn flip_slot_spec(s: Slot) -> Slot {
    match s.data {
        Some(EntityData::Chicken(c)) => Slot {
            generation: s.generation,
            data: Some(
                EntityData::Chicken(
                    ChickenBundle {
                        egg_spawn_timer: c.egg_spawn_timer,
                        target: c.target,
                        chicken_data: c.chicken_data,
                        transform: Transform {
                            translation: c.transform.translation,
                            scale: Vec2 {
                                x: flipped_scale_x(
                                    c.transform.translation.x as int,
                                    c.target.target.x as int,
                                    c.transform.scale.x as int,
                                ) as i64,
                                y: c.transform.scale.y,
                            },
                        },
                    },
                ),
            ),
        },
        _ => s,
    }
}

/// FacingSystem: flip each chicken's sprite so it faces the side its
/// target lies on. Only the sign of the x scale ever changes.
pub fn flip_sprite(store: &mut EntityStore)
    requires
        old(store).wf(),
    ensures
        final(store).wf(),
        final(store).slots@.len() == old(store).slots@.len(),
        forall|i: int|
            0 <= i < old(store).slots@.len() ==> final(store).slots@[i] == flip_slot_spec(
                old(store).slots@[i],
            ),
        final(store).pending_spawns@ == old(store).pending_spawns@,
        final(store).pending_despawns@ == old(store).pending_despawns@,
{
    let n = store.slots.len();
    let mut i: usize = 0;
    while i < n
        invariant
            i <= n,
            n == store.slots@.len(),
            old(store).slots@.len() == n,
            store.wf(),
            forall|j: int|
                0 <= j < i ==> store.slots@[j] == flip_slot_spec(old(store).slots@[j]),
            forall|j: int| i <= j < n ==> store.slots@[j] == old(store).slots@[j],
            store.pending_spawns@ == old(store).pending_spawns@,
            store.pending_despawns@ == old(store).pending_despawns@,
        decreases n - i,
    {
        let slot = store.slots[i];
        match slot.data {
            Some(EntityData::Chicken(c)) => {
                let sx: i64 = c.transform.scale.x;
                let flipped: i64 = if c.target.target.x > c.transform.translation.x && sx < 0 {
                    -sx
                } else if c.target.target.x < c.transform.translation.x && sx > 0 {
                    -sx
                } else {
                    sx
                };
                let turned = ChickenBundle {
                    egg_spawn_timer: c.egg_spawn_timer,
                    target: c.target,
                    chicken_data: c.chicken_data,
                    transform: Transform {
                        translation: c.transform.translation,
                        scale: Vec2 { x: flipped, y: c.transform.scale.y },
                    },
                };
                store.slots[i] = Slot {
                    generation: slot.generation,
                    data: Some(EntityData::Chicken(turned)),
                };
            },
            _ => {},
        }
        i += 1;
    }
}

/// How one whole wandering pass (movement, then targeting, then
/// facing) may change a slot.
pub open spec fn wander_rel(s: Slot, s2: Slot, dt_ms: int) -> bool {
    exists|m: Slot|
        retarget_slot_rel(move_slot_spec(s, dt_ms), m) && s2 == #[trigger] flip_slot_spec(m)
}

/// The wandering behavior: movement, target reselection and facing,
/// run in that order once per tick.
pub struct EntityPlugin;

impl EntityPlugin {
    /// Run the three wandering systems over every entity.
    pub fn run(store: &mut EntityStore, dt_ms: u64)
        requires
            old(store).wf(),
            dt_ms <= MAX_TICK_MS,
        ensures
            final(store).wf(),
            final(store).slots@.len() == old(store).slots@.len(),
            forall|i: int|
                0 <= i < old(store).slots@.len() ==> wander_rel(
                    old(store).slots@[i],
                    #[trigger] final(store).slots@[i],
                    dt_ms as int,
                ),
            final(store).pending_spawns@ == old(store).pending_spawns@,
            final(store).pending_despawns@ == old(store).pending_despawns@,
    {
        move_entity(store, dt_ms);
        select_new_random_target(store);
        let ghost mid = store.slots@;
        flip_sprite(store);
        proof {
            assert forall|i: int|
                0 <= i < old(store).slots@.len() implies wander_rel(
                old(store).slots@[i],
                store.slots@[i],
                dt_ms as int,
            ) by {
                assert(retarget_slot_rel(move_slot_spec(old(store).slots@[i], dt_ms as int), mid[i]));
                assert(store.slots@[i] == flip_slot_spec(mid[i]));
            }
        }
    }
}

} // verus!
