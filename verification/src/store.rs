//! The entity store: an arena of slots addressed by generational
//! handles, with structural changes (spawns and despawns) queued
//! during a tick and applied at its end.

use vstd::prelude::*;

use crate::chicken::ChickenBundle;
use crate::chicken::EggBundle;

verus! {

/// One live simulation entity: a chicken or an egg, with everything
/// it owns.
#[derive(Clone, Copy, PartialEq, Eq, Structural, Debug)]
pub enum EntityData {
    Chicken(ChickenBundle),
    Egg(EggBundle),
}

impl EntityData {
    pub open spec fn wf(self) -> bool {
        match self {
            EntityData::Chicken(c) => c.wf(),
            EntityData::Egg(e) => e.wf(),
        }
    }

    pub open spec fn transform(self) -> crate::geom::Transform {
        match self {
            EntityData::Chicken(c) => c.transform,
            EntityData::Egg(e) => e.transform,
        }
    }
}

/// A stable reference to an entity's slot. It names a slot index and
/// the generation the slot had when the entity was created; once the
/// entity is destroyed the slot's generation moves on and the handle
/// goes stale.
#[derive(Clone, Copy, PartialEq, Eq, Structural, Debug)]
pub struct Handle {
    pub index: usize,
    pub generation: u64,
}

/// The error returned when a handle no longer names a live entity.
#[derive(Clone, Copy, PartialEq, Eq, Structural, Debug)]
pub struct StaleHandle;

/// One arena slot: its current generation and, if the slot is in use,
/// the entity living in it.
#[derive(Clone, Copy, PartialEq, Eq, Structural, Debug)]
pub struct Slot {
    pub generation: u64,
    pub data: Option<EntityData>,
}

/// The slot holds a live chicken.
pub open spec fn holds_chicken(s: Slot) -> bool {
    s.data matches Some(EntityData::Chicken(_))
}

/// The slot holds a live egg.
pub open spec fn holds_egg(s: Slot) -> bool {
    s.data matches Some(EntityData::Egg(_))
}

/// The generation a slot takes when the entity in it is destroyed.
pub open spec fn next_generation(g: u64) -> u64 {
    if g == u64::MAX {
        0
    } else {
        (g + 1) as u64
    }
}

/// Every occupied slot holds a well-formed entity.
pub open spec fn slots_wf(s: Seq<Slot>) -> bool {
    forall|i: int|
        0 <= i < s.len() ==> ((#[trigger] s[i]).data matches Some(d) ==> d.wf())
}

/// Index of the first free slot, or `s.len()` if every slot is in use.
pub open spec fn first_free(s: Seq<Slot>) -> int
    decreases s.len(),
{
    if s.len() == 0 {
        0
    } else if s[0].data is None {
        0
    } else {
        1 + first_free(s.skip(1))
    }
}

/// What destroying through `h` does to the slots: if `h` names a live
/// entity of its own generation, the slot is emptied and its
/// generation moves on; a stale handle changes nothing.
pub open spec fn destroy_spec(s: Seq<Slot>, h: Handle) -> Seq<Slot> {
    if h.index < s.len() && s[h.index as int].generation == h.generation && s[h.index
        as int].data is Some {
        s.update(
            h.index as int,
            Slot { generation: next_generation(h.generation), data: None },
        )
    } else {
        s
    }
}

/// What creating an entity does to the slots: it fills the first free
/// slot, keeping that slot's generation, or opens a new slot at the
/// end.
pub open spec fn create_spec(s: Seq<Slot>, d: EntityData) -> Seq<Slot> {
    let i = first_free(s);
    if i < s.len() {
        s.update(i, Slot { generation: s[i].generation, data: Some(d) })
    } else {
        s.push(Slot { generation: 0, data: Some(d) })
    }
}

/// The registry of live entities, plus the structural changes queued
/// during the current tick.
pub struct EntityStore {
    pub slots: Vec<Slot>,
    pub pending_spawns: Vec<EntityData>,
    pub pending_despawns: Vec<Handle>,
}

impl EntityStore {
    /// Every slot and every queued spawn is well-formed.
    pub open spec fn wf(self) -> bool {
        &&& slots_wf(self.slots@)
        &&& forall|k: int|
            0 <= k < self.pending_spawns@.len() ==> (#[trigger] self.pending_spawns@[k]).wf()
    }

    /// `h` names a live entity: its slot exists, is occupied, and
    /// still carries the generation the handle was issued with.
    pub open spec fn valid(self, h: Handle) -> bool {
        &&& h.index < self.slots@.len()
        &&& self.slots@[h.index as int].generation == h.generation
        &&& self.slots@[h.index as int].data is Some
    }

    /// An empty store with nothing queued.
    pub fn new() -> (r: EntityStore)
        ensures
            r.slots@.len() == 0,
            r.pending_spawns@.len() == 0,
            r.pending_despawns@.len() == 0,
            r.wf(),
    {
        EntityStore { slots: Vec::new(), pending_spawns: Vec::new(), pending_despawns: Vec::new() }
    }

    /// Number of slots (live or free) in the arena.
    pub fn slot_count(&self) -> (n: usize)
        ensures
            n == self.slots@.len(),
    {
        self.slots.len()
    }

    /// Look an entity up by handle; a stale handle is an error.
    pub fn get(&self, h: Handle) -> (r: Result<EntityData, StaleHandle>)
        ensures
            self.valid(h) ==> r == Ok::<EntityData, StaleHandle>(
                self.slots@[h.index as int].data->Some_0,
            ),
            !self.valid(h) ==> r == Err::<EntityData, StaleHandle>(StaleHandle),
    {
        if h.index < self.slots.len() {
            let slot = self.slots[h.index];
            if slot.generation == h.generation {
                match slot.data {
                    Some(d) => Ok(d),
                    None => Err(StaleHandle),
                }
            } else {
                Err(StaleHandle)
            }
        } else {
            Err(StaleHandle)
        }
    }

    /// Put a new entity into the first free slot, or into a fresh
    /// slot at the end, and hand back a handle to it.
    pub fn create(&mut self, data: EntityData) -> (h: Handle)
        requires
            old(self).wf(),
            data.wf(),
            old(self).slots@.len() < usize::MAX,
        ensures
            final(self).slots@ == create_spec(old(self).slots@, data),
            final(self).pending_spawns@ == old(self).pending_spawns@,
            final(self).pending_despawns@ == old(self).pending_despawns@,
            h.index == first_free(old(self).slots@),
            final(self).valid(h),
            final(self).slots@[h.index as int].data == Some(data),
            final(self).wf(),
    {
        let n = self.slots.len();
        let mut i: usize = 0;
        while i < n && self.slots[i].data.is_some()
            invariant
                i <= n,
                n == self.slots@.len(),
                forall|j: int| 0 <= j < i ==> (#[trigger] self.slots@[j]).data is Some,
            decreases n - i,
        {
            i += 1;
        }
        proof {
            lemma_first_free_at(self.slots@, i as int);
        }
        if i < n {
            let generation = self.slots[i].generation;
            self.slots[i] = Slot { generation, data: Some(data) };
            Handle { index: i, generation }
        } else {
            self.slots.push(Slot { generation: 0, data: Some(data) });
            Handle { index: i, generation: 0 }
        }
    }

    /// Destroy the entity `h` names, freeing its slot and retiring the
    /// handle's generation. A stale handle is an error and changes
    /// nothing.
    pub fn destroy(&mut self, h: Handle) -> (r: Result<(), StaleHandle>)
        ensures
            final(self).slots@ == destroy_spec(old(self).slots@, h),
            final(self).pending_spawns@ == old(self).pending_spawns@,
            final(self).pending_despawns@ == old(self).pending_despawns@,
            r is Ok <==> old(self).valid(h),
            old(self).wf() ==> final(self).wf(),
    {
        if h.index < self.slots.len() {
            let slot = self.slots[h.index];
            if slot.generation == h.generation && slot.data.is_some() {
                self.slots[h.index] = Slot { generation: next_gen(h.generation), data: None };
                Ok(())
            } else {
                Err(StaleHandle)
            }
        } else {
            Err(StaleHandle)
        }
    }
}

/// What a queue of destroys does to the slots, first handle first.
pub open spec fn apply_despawns_spec(s: Seq<Slot>, hs: Seq<Handle>) -> Seq<Slot>
    decreases hs.len(),
{
    if hs.len() == 0 {
        s
    } else {
        apply_despawns_spec(destroy_spec(s, hs[0]), hs.skip(1))
    }
}

/// What a queue of creates does to the slots, first entity first.
pub open spec fn apply_spawns_spec(s: Seq<Slot>, ds: Seq<EntityData>) -> Seq<Slot>
    decreases ds.len(),
{
    if ds.len() == 0 {
        s
    } else {
        apply_spawns_spec(create_spec(s, ds[0]), ds.skip(1))
    }
}

/// Creating after a queue of creates is the same as one longer queue.
pub proof fn lemma_apply_spawns_push(s: Seq<Slot>, ds: Seq<EntityData>, d: EntityData)
    ensures
        apply_spawns_spec(s, ds.push(d)) == create_spec(apply_spawns_spec(s, ds), d),
    decreases ds.len(),
{
    if ds.len() == 0 {
        assert(ds.push(d)[0] == d);
        assert(ds.push(d).skip(1) =~= Seq::<EntityData>::empty());
        assert(apply_spawns_spec(s, ds.push(d)) == apply_spawns_spec(
            create_spec(s, d),
            Seq::<EntityData>::empty(),
        ));
        assert(apply_spawns_spec(create_spec(s, d), Seq::<EntityData>::empty()) == create_spec(
            s,
            d,
        ));
        assert(apply_spawns_spec(s, ds) == s);
    } else {
        assert(ds.push(d)[0] == ds[0]);
        assert(ds.push(d).skip(1) =~= ds.skip(1).push(d));
        lemma_apply_spawns_push(create_spec(s, ds[0]), ds.skip(1), d);
        assert(apply_spawns_spec(s, ds.push(d)) == apply_spawns_spec(
            create_spec(s, ds[0]),
            ds.skip(1).push(d),
        ));
        assert(apply_spawns_spec(s, ds) == apply_spawns_spec(create_spec(s, ds[0]), ds.skip(1)));
    }
}

/// Destroying through one handle keeps the slot count and every
/// remaining entity well-formed.
pub proof fn lemma_destroy_wf(s: Seq<Slot>, h: Handle)
    requires
        slots_wf(s),
    ensures
        slots_wf(destroy_spec(s, h)),
        destroy_spec(s, h).len() == s.len(),
{
    let t = destroy_spec(s, h);
    assert forall|i: int|
        0 <= i < t.len() implies ((#[trigger] t[i]).data matches Some(e) ==> e.wf()) by {
        assert(s[i].data matches Some(e) ==> e.wf());
    }
}

/// The first free slot is never past the end of the arena, and when
/// it lies inside it, it really is free.
pub proof fn lemma_first_free_range(s: Seq<Slot>)
    ensures
        0 <= first_free(s) <= s.len(),
        first_free(s) < s.len() ==> s[first_free(s)].data is None,
    decreases s.len(),
{
    if s.len() > 0 && !(s[0].data is None) {
        lemma_first_free_range(s.skip(1));
    }
}

/// A queue of destroys leaves every slot alone that none of its
/// handles points at.
pub proof fn lemma_apply_despawns_untouched(s: Seq<Slot>, hs: Seq<Handle>, i: int)
    requires
        0 <= i < s.len(),
        forall|k: int| 0 <= k < hs.len() ==> (#[trigger] hs[k]).index != i,
    ensures
        apply_despawns_spec(s, hs).len() == s.len(),
        apply_despawns_spec(s, hs)[i] == s[i],
    decreases hs.len(),
{
    if hs.len() > 0 {
        assert(destroy_spec(s, hs[0])[i] == s[i]);
        assert(forall|k: int|
            0 <= k < hs.skip(1).len() ==> (#[trigger] hs.skip(1)[k]).index != i);
        lemma_apply_despawns_untouched(destroy_spec(s, hs[0]), hs.skip(1), i);
    }
}

/// A queue of creates leaves every occupied slot alone: new entities
/// only take free slots or fresh ones at the end.
pub proof fn lemma_apply_spawns_occupied(s: Seq<Slot>, ds: Seq<EntityData>, i: int)
    requires
        0 <= i < s.len(),
        s[i].data is Some,
    ensures
        apply_spawns_spec(s, ds).len() >= s.len(),
        apply_spawns_spec(s, ds)[i] == s[i],
    decreases ds.len(),
{
    if ds.len() > 0 {
        lemma_first_free_range(s);
        assert(create_spec(s, ds[0])[i] == s[i]);
        lemma_apply_spawns_occupied(create_spec(s, ds[0]), ds.skip(1), i);
    }
}

impl EntityStore {
    /// Ask for an entity to be created when the tick's structural
    /// changes are applied.
    pub fn queue_spawn(&mut self, data: EntityData)
        ensures
            final(self).slots@ == old(self).slots@,
            final(self).pending_spawns@ == old(self).pending_spawns@.push(data),
            final(self).pending_despawns@ == old(self).pending_despawns@,
    {
        self.pending_spawns.push(data);
    }

    /// Ask for the entity `h` names to be destroyed when the tick's
    /// structural changes are applied.
    pub fn queue_despawn(&mut self, h: Handle)
        ensures
            final(self).slots@ == old(self).slots@,
            final(self).pending_spawns@ == old(self).pending_spawns@,
            final(self).pending_despawns@ == old(self).pending_despawns@.push(h),
    {
        self.pending_despawns.push(h);
    }

    /// Apply the queued structural changes: all despawns first, then
    /// all spawns (so an entity spawned this tick can reuse a slot
    /// freed this tick), leaving both queues empty. Live entities
    /// whose handles were not queued keep their slots untouched.
    pub fn apply_pending(&mut self)
        requires
            old(self).wf(),
            old(self).slots@.len() + old(self).pending_spawns@.len() < usize::MAX,
        ensures
            final(self).slots@ == apply_spawns_spec(
                apply_despawns_spec(old(self).slots@, old(self).pending_despawns@),
                old(self).pending_spawns@,
            ),
            final(self).pending_spawns@.len() == 0,
            final(self).pending_despawns@.len() == 0,
            old(self).slots@.len() <= final(self).slots@.len() <= old(self).slots@.len()
                + old(self).pending_spawns@.len(),
            final(self).wf(),
    {
        let ghost s0 = self.slots@;
        let ghost hs = self.pending_despawns@;
        let n_despawns = self.pending_despawns.len();
        proof {
            assert(hs.skip(0) =~= hs);
        }
        let mut k: usize = 0;
        while k < n_despawns
            invariant
                k <= n_despawns,
                n_despawns == hs.len(),
                self.pending_despawns@ == hs,
                self.pending_spawns@ == old(self).pending_spawns@,
                apply_despawns_spec(self.slots@, hs.skip(k as int)) == apply_despawns_spec(
                    s0,
                    hs,
                ),
                self.slots@.len() == s0.len(),
                slots_wf(self.slots@),
            decreases n_despawns - k,
        {
            let h = self.pending_despawns[k];
            proof {
                assert(hs.skip(k as int)[0] == hs[k as int]);
                assert(hs.skip(k as int).skip(1) =~= hs.skip(k as int + 1));
                lemma_destroy_wf(self.slots@, h);
            }
            let _ = self.destroy(h);
            k += 1;
        }
        proof {
            assert(hs.skip(n_despawns as int) =~= Seq::<Handle>::empty());
            assert(self.slots@ == apply_despawns_spec(s0, hs));
        }
        self.pending_despawns.clear();
        let ghost s1 = self.slots@;
        let ghost ds = old(self).pending_spawns@;
        let n_spawns = self.pending_spawns.len();
        proof {
            assert(ds.skip(0) =~= ds);
        }
        let mut k2: usize = 0;
        while k2 < n_spawns
            invariant
                k2 <= n_spawns,
                n_spawns == ds.len(),
                self.pending_spawns@ == ds,
                self.pending_despawns@.len() == 0,
                forall|j: int| 0 <= j < ds.len() ==> (#[trigger] ds[j]).wf(),
                apply_spawns_spec(self.slots@, ds.skip(k2 as int)) == apply_spawns_spec(s1, ds),
                s1.len() <= self.slots@.len() <= s1.len() + k2,
                s1.len() + ds.len() < usize::MAX,
                slots_wf(self.slots@),
            decreases n_spawns - k2,
        {
            let d = self.pending_spawns[k2];
            proof {
                assert(ds.skip(k2 as int)[0] == ds[k2 as int]);
                assert(ds.skip(k2 as int).skip(1) =~= ds.skip(k2 as int + 1));
            }
            let _ = self.create(d);
            k2 += 1;
        }
        proof {
            assert(ds.skip(n_spawns as int) =~= Seq::<EntityData>::empty());
        }
        self.pending_spawns.clear();
    }
}

/// Executable counterpart of `next_generation`.
fn next_gen(g: u64) -> (r: u64)
    ensures
        r == next_generation(g),
{
    if g == u64::MAX {
        0
    } else {
        g + 1
    }
}

/// A scan that passed `i` occupied slots and stopped at a free one
/// (or at the end) found exactly `first_free`.
proof fn lemma_first_free_at(s: Seq<Slot>, i: int)
    requires
        0 <= i <= s.len(),
        forall|j: int| 0 <= j < i ==> (#[trigger] s[j]).data is Some,
        i < s.len() ==> s[i].data is None,
    ensures
        first_free(s) == i,
    decreases i,
{
    if i == 0 {
        if s.len() > 0 {
            assert(s[0].data is None);
        }
    } else {
        assert(s[0].data is Some);
        lemma_first_free_at(s.skip(1), i - 1);
    }
}

} // verus!
