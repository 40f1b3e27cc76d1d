//! Chickens and their eggs: the component bundles an entity is built
//! from, the lifecycle state machine, and the timers that drive
//! reproduction, hatching and growth.

use vstd::prelude::*;

use crate::CHICKEN_SCALE_MILLI;
use crate::CHILD_SCALE_MILLI;
use crate::EGG_SCALE_MILLI;
use crate::EGG_HATCH_PERIOD_MS;
use crate::EGG_SPAWN_PERIOD_MS;
use crate::GROWTH_PERIOD_MS;
use crate::HALF_MAP_SIZE_MILLI;
use crate::INITIAL_CHICKENS;
use crate::MAX_TICK_MS;
use crate::POS_LIMIT_MILLI;
use crate::SCALE_LIMIT_MILLI;
use crate::store::EntityData;
use crate::store::EntityStore;
use crate::store::Handle;
use crate::store::Slot;
use crate::store::apply_spawns_spec;
use crate::store::holds_egg;
use crate::store::lemma_apply_spawns_push;
use crate::entity::Target;
use crate::geom::Transform;
use crate::geom::Vec2;
use crate::geom::clamp_spec;
use crate::timer::Timer;
use crate::timer::TimerMode;

verus! {

/// The repeating countdown on which a chicken lays its next egg.
#[derive(Clone, Copy, PartialEq, Eq, Structural, Debug)]
pub struct EggSpawnTimer {
    pub timer: Timer,
}

impl EggSpawnTimer {
    pub open spec fn inv(self) -> bool {
        &&& self.timer.inv()
        &&& self.timer.duration_ms == EGG_SPAWN_PERIOD_MS
        &&& self.timer.mode == TimerMode::Repeating
    }
}

impl Default for EggSpawnTimer {
    /// A full 10-second period ahead, nothing accumulated yet.
    fn default() -> (r: EggSpawnTimer)
        ensures
            r.timer.elapsed_ms == 0,
            r.inv(),
    {
        EggSpawnTimer { timer: Timer::new(EGG_SPAWN_PERIOD_MS, TimerMode::Repeating) }
    }
}

/// The countdown after which an egg hatches. It is configured as
/// repeating, but the egg is destroyed on the first completion, so it
/// acts as a one-shot.
#[derive(Clone, Copy, PartialEq, Eq, Structural, Debug)]
pub struct EggHatchTimer {
    pub timer: Timer,
}

impl EggHatchTimer {
    pub open spec fn inv(self) -> bool {
        &&& self.timer.inv()
        &&& self.timer.duration_ms == EGG_HATCH_PERIOD_MS
        &&& self.timer.mode == TimerMode::Repeating
    }
}

impl Default for EggHatchTimer {
    /// A full 5-second period ahead, nothing accumulated yet.
    fn default() -> (r: EggHatchTimer)
        ensures
            r.timer.elapsed_ms == 0,
            r.inv(),
    {
        EggHatchTimer { timer: Timer::new(EGG_HATCH_PERIOD_MS, TimerMode::Repeating) }
    }
}

/// A chicken's lifecycle: a child still carries its growth timer, an
/// adult carries nothing. `Adult` is terminal.
#[derive(Clone, Copy, PartialEq, Eq, Structural, Debug)]
pub enum ChickenState {
    Child(Timer),
    Adult,
}

impl ChickenState {
    pub open spec fn inv(self) -> bool {
        match self {
            ChickenState::Child(t) => {
                &&& t.inv()
                &&& t.duration_ms == GROWTH_PERIOD_MS
                &&& t.mode == TimerMode::Once
            },
            ChickenState::Adult => true,
        }
    }
}

impl Default for ChickenState {
    /// Chickens of the initial population are adults.
    fn default() -> (r: ChickenState)
        ensures
            r == ChickenState::Adult,
    {
        ChickenState::Adult
    }
}

/// Per-chicken lifecycle data.
#[derive(Clone, Copy, PartialEq, Eq, Structural, Debug)]
pub struct ChickenData {
    pub state: ChickenState,
}

impl ChickenData {
    pub open spec fn inv(self) -> bool {
        self.state.inv()
    }
}

impl Default for ChickenData {
    fn default() -> (r: ChickenData)
        ensures
            r.state == ChickenState::Adult,
    {
        ChickenData { state: ChickenState::Adult }
    }
}

/// An egg-spawn timer with nothing accumulated: what `default` hands
/// back.
pub open spec fn fresh_spawn_timer() -> EggSpawnTimer {
    EggSpawnTimer {
        timer: Timer {
            elapsed_ms: 0,
            duration_ms: EGG_SPAWN_PERIOD_MS,
            mode: TimerMode::Repeating,
        },
    }
}

/// A hatch timer with nothing accumulated: what `default` hands back.
pub open spec fn fresh_hatch_timer() -> EggHatchTimer {
    EggHatchTimer {
        timer: Timer {
            elapsed_ms: 0,
            duration_ms: EGG_HATCH_PERIOD_MS,
            mode: TimerMode::Repeating,
        },
    }
}

/// A growth timer with nothing accumulated.
pub open spec fn fresh_growth_timer() -> Timer {
    Timer { elapsed_ms: 0, duration_ms: GROWTH_PERIOD_MS, mode: TimerMode::Once }
}

/// The chicken `ChickenBundle::adult` builds.
pub open spec fn adult_bundle() -> ChickenBundle {
    ChickenBundle {
        egg_spawn_timer: fresh_spawn_timer(),
        target: Target { target: Vec2 { x: 0, y: 0 } },
        chicken_data: ChickenData { state: ChickenState::Adult },
        transform: Transform {
            translation: Vec2 { x: 0, y: 0 },
            scale: Vec2 { x: CHICKEN_SCALE_MILLI, y: CHICKEN_SCALE_MILLI },
        },
    }
}

/// A scale of the given class magnitude, keeping the facing (the
/// sign of the x component) of `scale`. Each lifecycle class is
/// drawn at its own fixed magnitude.
pub open spec fn class_scale(scale: Vec2, magnitude: i64) -> Vec2 {
    if scale.x < 0 {
        Vec2 { x: (-(magnitude as int)) as i64, y: magnitude }
    } else {
        Vec2 { x: magnitude, y: magnitude }
    }
}

/// Executable counterpart of `class_scale`.
fn class_scale_of(scale: Vec2, magnitude: i64) -> (r: Vec2)
    requires
        0 < magnitude,
    ensures
        r == class_scale(scale, magnitude),
{
    if scale.x < 0 {
        Vec2 { x: -magnitude, y: magnitude }
    } else {
        Vec2 { x: magnitude, y: magnitude }
    }
}

/// The chicken `ChickenBundle::child` builds at a given transform.
pub open spec fn child_bundle(transform: Transform) -> ChickenBundle {
    ChickenBundle {
        egg_spawn_timer: fresh_spawn_timer(),
        target: Target {
            target: Vec2 {
                x: clamp_spec(
                    transform.translation.x as int,
                    -HALF_MAP_SIZE_MILLI as int,
                    HALF_MAP_SIZE_MILLI as int,
                ) as i64,
                y: clamp_spec(
                    transform.translation.y as int,
                    -HALF_MAP_SIZE_MILLI as int,
                    HALF_MAP_SIZE_MILLI as int,
                ) as i64,
            },
        },
        chicken_data: ChickenData { state: ChickenState::Child(fresh_growth_timer()) },
        transform: Transform {
            translation: transform.translation,
            scale: class_scale(transform.scale, CHILD_SCALE_MILLI),
        },
    }
}

/// The egg `EggBundle::from_chicken` lays at a given transform.
pub open spec fn egg_bundle(transform: Transform) -> EggBundle {
    EggBundle {
        egg_hatch_timer: fresh_hatch_timer(),
        transform: Transform {
            translation: transform.translation,
            scale: class_scale(transform.scale, EGG_SCALE_MILLI),
        },
    }
}

/// Everything a chicken entity owns: where it is and how it is drawn,
/// where it walks to, when it lays the next egg, and its lifecycle
/// state.
#[derive(Clone, Copy, PartialEq, Eq, Structural, Debug)]
pub struct ChickenBundle {
    pub egg_spawn_timer: EggSpawnTimer,
    pub target: Target,
    pub chicken_data: ChickenData,
    pub transform: Transform,
}

impl ChickenBundle {
    /// Position within the arithmetic bound, target within the map
    /// square, a sprite that faces left or right, and valid timers.
    pub open spec fn wf(self) -> bool {
        &&& self.transform.translation.in_range(POS_LIMIT_MILLI as int)
        &&& self.transform.scale.in_range(SCALE_LIMIT_MILLI as int)
        &&& self.transform.scale.x != 0
        &&& self.target.target.in_range(HALF_MAP_SIZE_MILLI as int)
        &&& self.egg_spawn_timer.inv()
        &&& self.chicken_data.inv()
    }

    /// An adult chicken at the origin, facing right at full scale,
    /// aiming at the origin, with a fresh egg-spawn timer.
    pub fn adult() -> (r: ChickenBundle)
        ensures
            r == adult_bundle(),
            r.wf(),
    {
        ChickenBundle {
            egg_spawn_timer: EggSpawnTimer::default(),
            target: Target::default(),
            chicken_data: ChickenData::default(),
            transform: Transform {
                translation: Vec2 { x: 0, y: 0 },
                scale: Vec2 { x: CHICKEN_SCALE_MILLI, y: CHICKEN_SCALE_MILLI },
            },
        }
    }

    /// A newly hatched child chicken at the given position, drawn at
    /// the child scale class with the facing it hatched with. Its
    /// target is the hatching position itself, pulled back into the
    /// map square if the egg sat beyond it, so the chick stands on its
    /// own target and redraws one on the next targeting pass.
    pub fn child(transform: &Transform) -> (r: ChickenBundle)
        requires
            transform.translation.in_range(POS_LIMIT_MILLI as int),
            transform.scale.in_range(SCALE_LIMIT_MILLI as int),
            transform.scale.x != 0,
        ensures
            r == child_bundle(*transform),
            r.wf(),
    {
        ChickenBundle {
            egg_spawn_timer: EggSpawnTimer::default(),
            target: Target { target: transform.translation.clamped_to(HALF_MAP_SIZE_MILLI) },
            chicken_data: ChickenData {
                state: ChickenState::Child(Timer::new(GROWTH_PERIOD_MS, TimerMode::Once)),
            },
            transform: Transform {
                translation: transform.translation,
                scale: class_scale_of(transform.scale, CHILD_SCALE_MILLI),
            },
        }
    }
}

/// Everything an egg entity owns: where it lies and its hatch timer.
/// Eggs have no target and never move.
#[derive(Clone, Copy, PartialEq, Eq, Structural, Debug)]
pub struct EggBundle {
    pub egg_hatch_timer: EggHatchTimer,
    pub transform: Transform,
}

impl EggBundle {
    pub open spec fn wf(self) -> bool {
        &&& self.transform.translation.in_range(POS_LIMIT_MILLI as int)
        &&& self.transform.scale.in_range(SCALE_LIMIT_MILLI as int)
        &&& self.transform.scale.x != 0
        &&& self.egg_hatch_timer.inv()
    }

    /// A fresh egg laid where its parent stands, drawn at the egg
    /// scale class with the parent's facing, with a full hatch period
    /// ahead.
    pub fn from_chicken(transform: &Transform) -> (r: EggBundle)
        requires
            transform.translation.in_range(POS_LIMIT_MILLI as int),
            transform.scale.in_range(SCALE_LIMIT_MILLI as int),
            transform.scale.x != 0,
        ensures
            r == egg_bundle(*transform),
            r.wf(),
    {
        EggBundle {
            egg_hatch_timer: EggHatchTimer::default(),
            transform: Transform {
                translation: transform.translation,
                scale: class_scale_of(transform.scale, EGG_SCALE_MILLI),
            },
        }
    }
}

/// An egg-spawn timer advanced by one tick.
pub open spec fn ticked_spawn_timer(t: EggSpawnTimer, dt_ms: int) -> EggSpawnTimer {
    EggSpawnTimer {
        timer: Timer {
            elapsed_ms: t.timer.elapsed_after(dt_ms) as u64,
            duration_ms: t.timer.duration_ms,
            mode: t.timer.mode,
        },
    }
}

/// What one reproduction pass does to a slot: a chicken's egg-spawn
/// timer advances (wrapping when it fires); eggs and free slots are
/// untouched.
pub open spec fn repro_slot_spec(s: Slot, dt_ms: int) -> Slot {
    match s.data {
        Some(EntityData::Chicken(c)) => Slot {
            generation: s.generation,
            data: Some(
                EntityData::Chicken(
                    ChickenBundle {
                        egg_spawn_timer: ticked_spawn_timer(c.egg_spawn_timer, dt_ms),
                        target: c.target,
                        chicken_data: c.chicken_data,
                        transform: c.transform,
                    },
                ),
            ),
        },
        _ => s,
    }
}

/// A chicken in this slot lays an egg during a tick of `dt_ms`.
pub open spec fn spawn_fires(s: Slot, dt_ms: int) -> bool {
    match s.data {
        Some(EntityData::Chicken(c)) => c.egg_spawn_timer.timer.fires(dt_ms),
        _ => false,
    }
}

/// The eggs one reproduction pass queues while walking the first `n`
/// slots, in slot order: one fresh egg at its parent's transform for
/// every chicken whose timer fires.
pub open spec fn eggs_spawned(s: Seq<Slot>, dt_ms: int, n: int) -> Seq<EntityData>
    decreases n,
{
    if n <= 0 {
        Seq::empty()
    } else {
        let prefix = eggs_spawned(s, dt_ms, n - 1);
        if spawn_fires(s[n - 1], dt_ms) {
            prefix.push(EntityData::Egg(egg_bundle(s[n - 1].data->Some_0->Chicken_0.transform)))
        } else {
            prefix
        }
    }
}

/// ReproductionSystem: advance every chicken's egg-spawn timer; each
/// one that completes queues a fresh egg at its owner's position, to
/// appear when the tick's structural changes are applied.
pub fn spawn_eggs(store: &mut EntityStore, dt_ms: u64)
    requires
        old(store).wf(),
        dt_ms <= MAX_TICK_MS,
    ensures
        final(store).wf(),
        final(store).slots@.len() == old(store).slots@.len(),
        forall|i: int|
            0 <= i < old(store).slots@.len() ==> final(store).slots@[i] == repro_slot_spec(
                old(store).slots@[i],
                dt_ms as int,
            ),
        final(store).pending_spawns@ == old(store).pending_spawns@ + eggs_spawned(
            old(store).slots@,
            dt_ms as int,
            old(store).slots@.len() as int,
        ),
        final(store).pending_despawns@ == old(store).pending_despawns@,
{
    let n = store.slots.len();
    proof {
        assert(old(store).pending_spawns@ + eggs_spawned(old(store).slots@, dt_ms as int, 0)
            =~= old(store).pending_spawns@);
    }
    let mut i: usize = 0;
    while i < n
        invariant
            i <= n,
            n == store.slots@.len(),
            old(store).slots@.len() == n,
            store.wf(),
            dt_ms <= MAX_TICK_MS,
            forall|j: int|
                0 <= j < i ==> store.slots@[j] == repro_slot_spec(
                    old(store).slots@[j],
                    dt_ms as int,
                ),
            forall|j: int| i <= j < n ==> store.slots@[j] == old(store).slots@[j],
            store.pending_spawns@ == old(store).pending_spawns@ + eggs_spawned(
                old(store).slots@,
                dt_ms as int,
                i as int,
            ),
            store.pending_despawns@ == old(store).pending_despawns@,
        decreases n - i,
    {
        let slot = store.slots[i];
        match slot.data {
            Some(EntityData::Chicken(c)) => {
                proof {
                    assert(c.wf());
                }
                let mut timer = c.egg_spawn_timer.timer;
                let fired = timer.tick(dt_ms);
                let advanced = ChickenBundle {
                    egg_spawn_timer: EggSpawnTimer { timer },
                    target: c.target,
                    chicken_data: c.chicken_data,
                    transform: c.transform,
                };
                store.slots[i] = Slot {
                    generation: slot.generation,
                    data: Some(EntityData::Chicken(advanced)),
                };
                if fired {
                    let egg = EggBundle::from_chicken(&c.transform);
                    store.queue_spawn(EntityData::Egg(egg));
                }
            },
            _ => {},
        }
        i += 1;
    }
}

/// A hatch timer advanced by one tick.
pub open spec fn ticked_hatch_timer(t: EggHatchTimer, dt_ms: int) -> EggHatchTimer {
    EggHatchTimer {
        timer: Timer {
            elapsed_ms: t.timer.elapsed_after(dt_ms) as u64,
            duration_ms: t.timer.duration_ms,
            mode: t.timer.mode,
        },
    }
}

/// What one hatching pass does to a slot: an egg's hatch timer
/// advances; chickens and free slots are untouched.
pub open spec fn hatch_slot_spec(s: Slot, dt_ms: int) -> Slot {
    match s.data {
        Some(EntityData::Egg(e)) => Slot {
            generation: s.generation,
            data: Some(
                EntityData::Egg(
                    EggBundle {
                        egg_hatch_timer: ticked_hatch_timer(e.egg_hatch_timer, dt_ms),
                        transform: e.transform,
                    },
                ),
            ),
        },
        _ => s,
    }
}

/// An egg in this slot hatches during a tick of `dt_ms`.
pub open spec fn hatch_fires(s: Slot, dt_ms: int) -> bool {
    match s.data {
        Some(EntityData::Egg(e)) => e.egg_hatch_timer.timer.fires(dt_ms),
        _ => false,
    }
}

/// The child chickens one hatching pass queues while walking the
/// first `n` slots, in slot order: one at each hatching egg's
/// transform.
pub open spec fn chicks_hatched(s: Seq<Slot>, dt_ms: int, n: int) -> Seq<EntityData>
    decreases n,
{
    if n <= 0 {
        Seq::empty()
    } else {
        let prefix = chicks_hatched(s, dt_ms, n - 1);
        if hatch_fires(s[n - 1], dt_ms) {
            prefix.push(EntityData::Chicken(child_bundle(s[n - 1].data->Some_0->Egg_0.transform)))
        } else {
            prefix
        }
    }
}

/// The handles of the eggs that hatch while walking the first `n`
/// slots, queued for destruction in slot order.
pub open spec fn hatched_handles(s: Seq<Slot>, dt_ms: int, n: int) -> Seq<Handle>
    decreases n,
{
    if n <= 0 {
        Seq::empty()
    } else {
        let prefix = hatched_handles(s, dt_ms, n - 1);
        if hatch_fires(s[n - 1], dt_ms) {
            prefix.push(Handle { index: (n - 1) as usize, generation: s[n - 1].generation })
        } else {
            prefix
        }
    }
}

/// HatchingSystem: advance every egg's hatch timer; each egg whose
/// timer completes queues one new child chicken at the egg's own
/// transform and queues itself for destruction.
pub fn hatch_eggs(store: &mut EntityStore, dt_ms: u64)
    requires
        old(store).wf(),
        dt_ms <= MAX_TICK_MS,
    ensures
        final(store).wf(),
        final(store).slots@.len() == old(store).slots@.len(),
        forall|i: int|
            0 <= i < old(store).slots@.len() ==> final(store).slots@[i] == hatch_slot_spec(
                old(store).slots@[i],
                dt_ms as int,
            ),
        final(store).pending_spawns@ == old(store).pending_spawns@ + chicks_hatched(
            old(store).slots@,
            dt_ms as int,
            old(store).slots@.len() as int,
        ),
        final(store).pending_despawns@ == old(store).pending_despawns@ + hatched_handles(
            old(store).slots@,
            dt_ms as int,
            old(store).slots@.len() as int,
        ),
{
    let n = store.slots.len();
    proof {
        assert(old(store).pending_spawns@ + chicks_hatched(old(store).slots@, dt_ms as int, 0)
            =~= old(store).pending_spawns@);
        assert(old(store).pending_despawns@ + hatched_handles(old(store).slots@, dt_ms as int, 0)
            =~= old(store).pending_despawns@);
    }
    let mut i: usize = 0;
    while i < n
        invariant
            i <= n,
            n == store.slots@.len(),
            old(store).slots@.len() == n,
            store.wf(),
            dt_ms <= MAX_TICK_MS,
            forall|j: int|
                0 <= j < i ==> store.slots@[j] == hatch_slot_spec(
                    old(store).slots@[j],
                    dt_ms as int,
                ),
            forall|j: int| i <= j < n ==> store.slots@[j] == old(store).slots@[j],
            store.pending_spawns@ == old(store).pending_spawns@ + chicks_hatched(
                old(store).slots@,
                dt_ms as int,
                i as int,
            ),
            store.pending_despawns@ == old(store).pending_despawns@ + hatched_handles(
                old(store).slots@,
                dt_ms as int,
                i as int,
            ),
        decreases n - i,
    {
        let slot = store.slots[i];
        match slot.data {
            Some(EntityData::Egg(e)) => {
                proof {
                    assert(e.wf());
                }
                let mut timer = e.egg_hatch_timer.timer;
                let fired = timer.tick(dt_ms);
                let advanced = EggBundle {
                    egg_hatch_timer: EggHatchTimer { timer },
                    transform: e.transform,
                };
                store.slots[i] = Slot {
                    generation: slot.generation,
                    data: Some(EntityData::Egg(advanced)),
                };
                if fired {
                    let chick = ChickenBundle::child(&e.transform);
                    store.queue_spawn(EntityData::Chicken(chick));
                    store.queue_despawn(Handle { index: i, generation: slot.generation });
                }
            },
            _ => {},
        }
        i += 1;
    }
}

/// A lifecycle state advanced by one tick: a child whose growth timer
/// completes becomes an adult, a child otherwise keeps its advanced
/// timer, and an adult stays an adult forever.
pub open spec fn grown_state(st: ChickenState, dt_ms: int) -> ChickenState {
    match st {
        ChickenState::Child(t) => {
            if t.fires(dt_ms) {
                ChickenState::Adult
            } else {
                ChickenState::Child(
                    Timer {
                        elapsed_ms: t.elapsed_after(dt_ms) as u64,
                        duration_ms: t.duration_ms,
                        mode: t.mode,
                    },
                )
            }
        },
        ChickenState::Adult => ChickenState::Adult,
    }
}

/// The scale after one growth pass: a child whose growth timer
/// completes is redrawn at the adult scale class, keeping its
/// facing; everyone else keeps their scale.
pub open spec fn grown_scale(st: ChickenState, scale: Vec2, dt_ms: int) -> Vec2 {
    match st {
        ChickenState::Child(t) => {
            if t.fires(dt_ms) {
                class_scale(scale, CHICKEN_SCALE_MILLI)
            } else {
                scale
            }
        },
        ChickenState::Adult => scale,
    }
}

/// What one growth pass does to a slot: a chicken's lifecycle state
/// advances in place, and on the child-to-adult transition its scale
/// swaps to the adult class; eggs and free slots are untouched.
pub open spec fn grow_slot_spec(s: Slot, dt_ms: int) -> Slot {
    match s.data {
        Some(EntityData::Chicken(c)) => Slot {
            generation: s.generation,
            data: Some(
                EntityData::Chicken(
                    ChickenBundle {
                        egg_spawn_timer: c.egg_spawn_timer,
                        target: c.target,
                        chicken_data: ChickenData {
                            state: grown_state(c.chicken_data.state, dt_ms),
                        },
                        transform: Transform {
                            translation: c.transform.translation,
                            scale: grown_scale(c.chicken_data.state, c.transform.scale, dt_ms),
                        },
                    },
                ),
            ),
        },
        _ => s,
    }
}

/// GrowthSystem: advance every child chicken's growth timer and turn
/// the chicken into an adult, in place, when it completes, swapping
/// its sprite to the adult scale class. Adults are left untouched.
pub fn grow_chickens(store: &mut EntityStore, dt_ms: u64)
    requires
        old(store).wf(),
        dt_ms <= MAX_TICK_MS,
    ensures
        final(store).wf(),
        final(store).slots@.len() == old(store).slots@.len(),
        forall|i: int|
            0 <= i < old(store).slots@.len() ==> final(store).slots@[i] == grow_slot_spec(
                old(store).slots@[i],
                dt_ms as int,
            ),
        final(store).pending_spawns@ == old(store).pending_spawns@,
        final(store).pending_despawns@ == old(store).pending_despawns@,
{
    let n = store.slots.len();
    let mut i: usize = 0;
    while i < n
        invariant
            i <= n,
            n == store.slots@.len(),
            old(store).slots@.len() == n,
            store.wf(),
            dt_ms <= MAX_TICK_MS,
            forall|j: int|
                0 <= j < i ==> store.slots@[j] == grow_slot_spec(
                    old(store).slots@[j],
                    dt_ms as int,
                ),
            forall|j: int| i <= j < n ==> store.slots@[j] == old(store).slots@[j],
            store.pending_spawns@ == old(store).pending_spawns@,
            store.pending_despawns@ == old(store).pending_despawns@,
        decreases n - i,
    {
        let slot = store.slots[i];
        match slot.data {
            Some(EntityData::Chicken(c)) => {
                match c.chicken_data.state {
                    ChickenState::Child(t) => {
                        proof {
                            assert(c.wf());
                        }
                        let mut timer = t;
                        let fired = timer.tick(dt_ms);
                        let state = if fired {
                            ChickenState::Adult
                        } else {
                            ChickenState::Child(timer)
                        };
                        let scale = if fired {
                            class_scale_of(c.transform.scale, CHICKEN_SCALE_MILLI)
                        } else {
                            c.transform.scale
                        };
                        let grown = ChickenBundle {
                            egg_spawn_timer: c.egg_spawn_timer,
                            target: c.target,
                            chicken_data: ChickenData { state },
                            transform: Transform {
                                translation: c.transform.translation,
                                scale,
                            },
                        };
                        store.slots[i] = Slot {
                            generation: slot.generation,
                            data: Some(EntityData::Chicken(grown)),
                        };
                    },
                    ChickenState::Adult => {},
                }
            },
            _ => {},
        }
        i += 1;
    }
}

/// The entities the startup pass creates: the initial adult
/// population.
pub open spec fn adult_spawns(n: int) -> Seq<EntityData> {
    Seq::new(n as nat, |i: int| EntityData::Chicken(adult_bundle()))
}

/// Place the initial population: `INITIAL_CHICKENS` adult chickens at
/// the origin, created directly (simulation start is not a tick, so
/// nothing is deferred).
pub fn setup_chickens(store: &mut EntityStore)
    requires
        old(store).wf(),
        old(store).slots@.len() + INITIAL_CHICKENS < usize::MAX,
    ensures
        final(store).wf(),
        final(store).slots@ == apply_spawns_spec(
            old(store).slots@,
            adult_spawns(INITIAL_CHICKENS as int),
        ),
        old(store).slots@.len() <= final(store).slots@.len() <= old(store).slots@.len()
            + INITIAL_CHICKENS,
        final(store).pending_spawns@ == old(store).pending_spawns@,
        final(store).pending_despawns@ == old(store).pending_despawns@,
{
    proof {
        assert(adult_spawns(0) =~= Seq::<EntityData>::empty());
    }
    let mut k: usize = 0;
    while k < INITIAL_CHICKENS
        invariant
            k <= INITIAL_CHICKENS,
            store.wf(),
            store.slots@ == apply_spawns_spec(old(store).slots@, adult_spawns(k as int)),
            old(store).slots@.len() <= store.slots@.len() <= old(store).slots@.len() + k,
            old(store).slots@.len() + INITIAL_CHICKENS < usize::MAX,
            store.pending_spawns@ == old(store).pending_spawns@,
            store.pending_despawns@ == old(store).pending_despawns@,
        decreases INITIAL_CHICKENS - k,
    {
        let c = ChickenBundle::adult();
        proof {
            lemma_apply_spawns_push(
                old(store).slots@,
                adult_spawns(k as int),
                EntityData::Chicken(adult_bundle()),
            );
            assert(adult_spawns(k as int).push(EntityData::Chicken(adult_bundle()))
                =~= adult_spawns(k as int + 1));
        }
        let _ = store.create(EntityData::Chicken(c));
        k += 1;
    }
}

/// Every handle a hatching pass queues names an egg slot among those
/// it walked: hatching never asks for anything but eggs to be
/// destroyed.
pub proof fn lemma_hatched_handles_point_at_eggs(s: Seq<Slot>, dt_ms: int, n: int)
    requires
        0 <= n <= s.len(),
        n <= usize::MAX,
    ensures
        forall|k: int|
            0 <= k < hatched_handles(s, dt_ms, n).len() ==> (#[trigger] hatched_handles(
                s,
                dt_ms,
                n,
            )[k]).index < n && holds_egg(s[hatched_handles(s, dt_ms, n)[k].index as int]),
    decreases n,
{
    if n > 0 {
        lemma_hatched_handles_point_at_eggs(s, dt_ms, n - 1);
        let prefix = hatched_handles(s, dt_ms, n - 1);
        let whole = hatched_handles(s, dt_ms, n);
        assert forall|k: int|
            0 <= k < whole.len() implies (#[trigger] whole[k]).index < n && holds_egg(
            s[whole[k].index as int],
        ) by {
            if k < prefix.len() {
                assert(whole[k] == prefix[k]);
            } else {
                assert(hatch_fires(s[n - 1], dt_ms));
                assert(whole[k] == (Handle {
                    index: (n - 1) as usize,
                    generation: s[n - 1].generation,
                }));
                assert((n - 1) as usize as int == n - 1);
            }
        }
    }
}

/// A reproduction pass queues at most one egg per slot walked.
pub proof fn lemma_eggs_spawned_len(s: Seq<Slot>, dt_ms: int, n: int)
    requires
        0 <= n,
    ensures
        eggs_spawned(s, dt_ms, n).len() <= n,
    decreases n,
{
    if n > 0 {
        lemma_eggs_spawned_len(s, dt_ms, n - 1);
    }
}

/// A hatching pass queues at most one chick per slot walked.
pub proof fn lemma_chicks_hatched_len(s: Seq<Slot>, dt_ms: int, n: int)
    requires
        0 <= n,
    ensures
        chicks_hatched(s, dt_ms, n).len() <= n,
    decreases n,
{
    if n > 0 {
        lemma_chicks_hatched_len(s, dt_ms, n - 1);
    }
}

/// The slots after one reproduction pass.
pub open spec fn repro_slots_spec(s: Seq<Slot>, dt_ms: int) -> Seq<Slot> {
    Seq::new(s.len(), |i: int| repro_slot_spec(s[i], dt_ms))
}

/// The chicken lifecycle: reproduction, hatching and growth, run in
/// that order once per tick.
pub struct ChickenPlugin;

impl ChickenPlugin {
    /// Run the three lifecycle systems over every entity. New eggs and
    /// chicks are queued, eggs that hatched are queued for
    /// destruction; nothing structural happens until the queues are
    /// applied.
    pub fn run(store: &mut EntityStore, dt_ms: u64)
        requires
            old(store).wf(),
            dt_ms <= MAX_TICK_MS,
        ensures
            final(store).wf(),
            final(store).slots@.len() == old(store).slots@.len(),
            forall|i: int|
                0 <= i < old(store).slots@.len() ==> final(store).slots@[i] == grow_slot_spec(
                    hatch_slot_spec(repro_slot_spec(old(store).slots@[i], dt_ms as int), dt_ms as int),
                    dt_ms as int,
                ),
            final(store).pending_spawns@ == old(store).pending_spawns@ + eggs_spawned(
                old(store).slots@,
                dt_ms as int,
                old(store).slots@.len() as int,
            ) + chicks_hatched(
                repro_slots_spec(old(store).slots@, dt_ms as int),
                dt_ms as int,
                old(store).slots@.len() as int,
            ),
            final(store).pending_despawns@ == old(store).pending_despawns@ + hatched_handles(
                repro_slots_spec(old(store).slots@, dt_ms as int),
                dt_ms as int,
                old(store).slots@.len() as int,
            ),
    {
        spawn_eggs(store, dt_ms);
        proof {
            assert(store.slots@ =~= repro_slots_spec(old(store).slots@, dt_ms as int));
        }
        let ghost mid = store.slots@;
        hatch_eggs(store, dt_ms);
        grow_chickens(store, dt_ms);
        proof {
            assert forall|i: int|
                0 <= i < old(store).slots@.len() implies store.slots@[i] == grow_slot_spec(
                hatch_slot_spec(repro_slot_spec(old(store).slots@[i], dt_ms as int), dt_ms as int),
                dt_ms as int,
            ) by {
                assert(mid[i] == repro_slot_spec(old(store).slots@[i], dt_ms as int));
            }
        }
    }
}

} // verus!
