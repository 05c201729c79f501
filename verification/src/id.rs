use std::collections::VecDeque;
use vstd::prelude::*;

verus! {

/// Number of bits of an id that hold the generation.
pub const GEN_BITS: u64 = 16;

/// Number of bits of an id that hold the slot index.
pub const IDX_BITS: u64 = 48;

/// Mask selecting the index bits of an id.
pub const IDX_MASK: u64 = 0xFFFF_FFFF_FFFF;

/// Mask selecting the generation bits once shifted down.
pub const GEN_MASK: u16 = 0xFFFF;

/// Number of distinct slot indices an id can encode.
pub const MAX_INDEX_COUNT: u64 = 0x1_0000_0000_0000;

/// Once more than this many indices are free, allocation recycles a free slot
/// instead of growing the generation table.
pub const MIN_FREE_INDICES: usize = 10;

/// The raw value of the id that never refers to a slot.
pub const INVALID_ID_VALUE: u64 = 0xFFFF_FFFF_FFFF_FFFF;

/// A generational handle: the low `IDX_BITS` bits hold a slot index, the high
/// `GEN_BITS` bits hold the generation of that slot.
#[derive(Debug, Copy, Clone, PartialEq, Eq, Structural)]
pub struct Id(pub u64);

/// Error of an id allocation.
#[derive(Debug, Copy, Clone, PartialEq, Eq, Structural)]
pub enum IdError {
    OutOfSpace,
}

/// The index field of a raw id value.
pub open spec fn id_index(v: u64) -> u64 {
    v & 0xFFFF_FFFF_FFFF
}

/// The generation field of a raw id value.
pub open spec fn id_generation(v: u64) -> u16 {
    (v >> 48u64) as u16
}

/// The raw value that packs an index and a generation.
pub open spec fn id_compose(index: u64, gen: u16) -> u64 {
    index | ((gen as u64) << 48u64)
}

/// Odd generations mark a live slot.
pub open spec fn is_live_gen(gen: u16) -> bool {
    gen % 2 == 1
}

/// Composing an index below 2^48 with a generation and reading the fields back
/// gives the index and the generation.
pub proof fn lemma_compose_fields(index: u64, gen: u16)
    requires
        index < 0x1_0000_0000_0000,
    ensures
        id_index(id_compose(index, gen)) == index,
        id_generation(id_compose(index, gen)) == gen,
{
    assert((index | ((gen as u64) << 48u64)) & 0xFFFF_FFFF_FFFFu64 == index) by (bit_vector)
        requires
            index < 0x1_0000_0000_0000u64,
    ;
    assert(((index | ((gen as u64) << 48u64)) >> 48u64) as u16 == gen) by (bit_vector)
        requires
            index < 0x1_0000_0000_0000u64,
    ;
}

/// Reading the fields of a raw id and composing them again gives the id back.
pub proof fn lemma_decompose(v: u64)
    ensures
        id_compose(id_index(v), id_generation(v)) == v,
        id_index(v) < 0x1_0000_0000_0000,
{
    assert(((v & 0xFFFF_FFFF_FFFFu64) | ((((v >> 48u64) as u16) as u64) << 48u64)) == v) by (bit_vector);
    assert((v & 0xFFFF_FFFF_FFFFu64) < 0x1_0000_0000_0000u64) by (bit_vector);
}

/// The invalid id names the last index an id can encode.
pub proof fn lemma_invalid_index()
    ensures
        id_index(INVALID_ID_VALUE) == 0xFFFF_FFFF_FFFF,
{
    assert(0xFFFF_FFFF_FFFF_FFFFu64 & 0xFFFF_FFFF_FFFFu64 == 0xFFFF_FFFF_FFFFu64) by (bit_vector);
}

proof fn lemma_and_bit(gen: u16)
    ensures
        ((gen & 1u16) == 1u16) == (gen % 2 == 1),
        ((gen & 1u16) == 0u16) == (gen % 2 == 0),
{
    assert(((gen & 1u16) == 1u16) == (gen % 2 == 1)) by (bit_vector);
    assert(((gen & 1u16) == 0u16) == (gen % 2 == 0)) by (bit_vector);
}

impl Id {
    /// The id that never refers to a slot (all bits set).
    pub fn invalid() -> (r: Self)
        ensures
            r.0 == INVALID_ID_VALUE,
    {
        Id(INVALID_ID_VALUE)
    }

    /// Packs `index` (its low bits) and `gen` (the high bits) into one id.
    pub fn new(index: u64, gen: u16) -> (r: Self)
        ensures
            r.0 == id_compose(index, gen),
    {
        Id(index | ((gen as u64) << 48u64))
    }

    /// The slot index this id refers to.
    pub fn get_index(&self) -> (r: u64)
        ensures
            r == id_index(self.0),
    {
        self.0 & IDX_MASK
    }

    /// The generation this id was handed out with.
    pub fn get_generation(&self) -> (r: u16)
        ensures
            r == id_generation(self.0),
    {
        let g: u16 = (self.0 >> 48u64) as u16;
        let r: u16 = g & GEN_MASK;
        assert(g & 0xFFFFu16 == g) by (bit_vector);
        r
    }

    /// Replaces the index, keeping the generation.
    pub fn set_index(&mut self, idx: u64) -> (r: &mut Self)
        ensures
            r.0 == id_compose(idx, id_generation(old(self).0)),
            *final(self) == *final(r),
    {
        let gen = self.get_generation();
        self.0 = idx | ((gen as u64) << 48u64);
        self
    }

    /// Replaces the generation, keeping the index.
    pub fn set_generation(&mut self, gen: u16) -> (r: &mut Self)
        ensures
            r.0 == id_compose(id_index(old(self).0), gen),
            *final(self) == *final(r),
    {
        let idx = self.get_index();
        self.0 = idx | ((gen as u64) << 48u64);
        self
    }

    /// Advances the generation by one, keeping the index.
    pub fn inc_generation(&mut self) -> (r: &mut Self)
        requires
            id_generation(old(self).0) < 0xFFFF,
        ensures
            r.0 == id_compose(id_index(old(self).0), (id_generation(old(self).0) + 1) as u16),
            *final(self) == *final(r),
    {
        let gen = self.get_generation();
        self.set_generation(gen + 1)
    }
}

/// Hands out generational ids. Each slot of `gens` holds the current generation
/// of an index: odd while an id for it is live, even once it has been freed.
/// Freed indices wait in `free_indices`, oldest first.
pub struct IdSystem {
    gens: Vec<u16>,
    free_indices: VecDeque<u64>,
    capacity: usize,
}

impl IdSystem {
    /// The generation of every slot handed out so far.
    pub closed spec fn gens(&self) -> Seq<u16> {
        self.gens@
    }

    /// The freed indices, in the order they will be recycled.
    pub closed spec fn free_list(&self) -> Seq<u64> {
        self.free_indices@
    }

    /// The number of slots the system was created for.
    pub closed spec fn capacity(&self) -> nat {
        self.capacity as nat
    }

    /// The internal invariant: the table fits the capacity and the id space,
    /// the free list holds each freed slot exactly once, and every slot with an
    /// even (free) generation is on it.
    pub closed spec fn wf(&self) -> bool {
        &&& self.gens@.len() == 0 || self.gens@.len() < self.capacity
        &&& self.capacity <= MAX_INDEX_COUNT
        &&& forall|k: int|
            0 <= k < self.free_indices@.len() ==> {
                &&& #[trigger] self.free_indices@[k] < self.gens@.len()
                &&& self.gens@[self.free_indices@[k] as int] % 2 == 0
            }
        &&& forall|k1: int, k2: int|
            0 <= k1 < self.free_indices@.len() && 0 <= k2 < self.free_indices@.len() && k1 != k2
                ==> #[trigger] self.free_indices@[k1] != #[trigger] self.free_indices@[k2]
        &&& forall|i: int|
            0 <= i < self.gens@.len() && #[trigger] self.gens@[i] % 2 == 0
                ==> self.free_indices@.contains(i as u64)
    }

    /// A well-formed system never hands out more slots than it was made for,
    /// and once it has handed out any it keeps one index of its capacity
    /// unused.
    pub proof fn lemma_wf_bounds(&self)
        requires
            self.wf(),
        ensures
            self.gens().len() <= self.capacity(),
            self.gens().len() == 0 || self.gens().len() < self.capacity(),
            self.capacity() <= MAX_INDEX_COUNT,
    {
    }

    /// Whether the next allocation fails for want of a free slot.
    pub open spec fn is_full(&self) -> bool {
        self.recycles_next() && self.free_list().len() == 0
    }

    /// `id` names a live slot with the generation that slot currently has.
    pub open spec fn spec_is_id_valid(&self, id: Id) -> bool {
        &&& id_index(id.0) < self.gens().len()
        &&& is_live_gen(id_generation(id.0))
        &&& self.gens()[id_index(id.0) as int] == id_generation(id.0)
    }

    /// `id` names a slot whose generation has already moved past the id's own:
    /// a handle that was freed.
    pub open spec fn is_stale(&self, id: Id) -> bool {
        &&& id_index(id.0) < self.gens().len()
        &&& self.gens()[id_index(id.0) as int] > id_generation(id.0)
    }

    /// Whether the next allocation recycles a freed slot rather than growing the table.
    pub open spec fn recycles_next(&self) -> bool {
        self.free_list().len() > MIN_FREE_INDICES || self.gens().len() + 1 >= self.capacity()
    }

    /// An empty system for up to `max_ids` slots.
    pub fn new(max_ids: usize) -> (r: Self)
        requires
            max_ids <= MAX_INDEX_COUNT,
        ensures
            r.wf(),
            r.gens() == Seq::<u16>::empty(),
            r.free_list() == Seq::<u64>::empty(),
            r.capacity() == max_ids,
            forall|x: Id| !r.spec_is_id_valid(x),
    {
        IdSystem { gens: Vec::with_capacity(max_ids), free_indices: VecDeque::new(), capacity: max_ids }
    }

    /// Odd generations mark a live slot.
    pub fn is_live_generation(gen: u16) -> (r: bool)
        ensures
            r == is_live_gen(gen),
    {
        proof {
            lemma_and_bit(gen);
        }
        (gen & 1u16) == 1u16
    }

    /// Even generations mark a free slot.
    pub fn is_free_generation(gen: u16) -> (r: bool)
        ensures
            r == !is_live_gen(gen),
    {
        proof {
            lemma_and_bit(gen);
        }
        (gen & 1u16) == 0u16
    }

    /// The generation a free slot takes when it becomes live.
    pub fn mark_generation_as_alive(gen: u16) -> (r: u16)
        requires
            !is_live_gen(gen),
        ensures
            r == gen + 1,
            is_live_gen(r),
    {
        gen + 1
    }

    /// The generation a live slot takes when it is freed.
    pub fn mark_generation_as_free(gen: u16) -> (r: u16)
        requires
            is_live_gen(gen),
            gen < 0xFFFF,
        ensures
            r == gen + 1,
            !is_live_gen(r),
    {
        gen + 1
    }

    /// Whether `id` names a live slot with its current generation.
    pub fn is_id_valid(&self, id: Id) -> (r: bool)
        ensures
            r == self.spec_is_id_valid(id),
    {
        let index = id.get_index();
        let gen = id.get_generation();
        if index < self.gens.len() as u64 && IdSystem::is_live_generation(gen) {
            self.gens[index as usize] == gen
        } else {
            false
        }
    }

    /// Hands out a fresh id. While few indices are free and the table has room,
    /// a new slot is appended with generation 1; otherwise the oldest freed
    /// index is recycled with its generation advanced, or `OutOfSpace` is
    /// returned when none is free.
    pub fn alloc_id(&mut self) -> (r: Result<Id, IdError>)
        requires
            old(self).wf(),
        ensures
            final(self).wf(),
            final(self).capacity() == old(self).capacity(),
            old(self).recycles_next() && old(self).free_list().len() == 0 ==> {
                &&& r == Err::<Id, IdError>(IdError::OutOfSpace)
                &&& final(self).gens() == old(self).gens()
                &&& final(self).free_list() == old(self).free_list()
            },
            old(self).recycles_next() && old(self).free_list().len() > 0 ==> {
                let i = old(self).free_list()[0];
                let g = (old(self).gens()[i as int] + 1) as u16;
                &&& r == Ok::<Id, IdError>(Id(id_compose(i, g)))
                &&& final(self).gens() == old(self).gens().update(i as int, g)
                &&& final(self).free_list() == old(self).free_list().drop_first()
            },
            !old(self).recycles_next() ==> {
                &&& r == Ok::<Id, IdError>(Id(id_compose(old(self).gens().len() as u64, 1)))
                &&& final(self).gens() == old(self).gens().push(1)
                &&& final(self).free_list() == old(self).free_list()
            },
            r is Ok ==> final(self).spec_is_id_valid(r->Ok_0) && !old(self).spec_is_id_valid(r->Ok_0),
            r matches Ok(id) ==> {
                &&& final(self).gens().len() == old(self).gens().len() || (final(self).gens().len()
                    == old(self).gens().len() + 1 && id_index(id.0) == old(self).gens().len())
                &&& forall|k: int|
                    0 <= k < old(self).gens().len() && k != id_index(id.0) ==> #[trigger] final(self).gens()[k]
                        == old(self).gens()[k]
                &&& id_index(id.0) < old(self).gens().len() ==> !is_live_gen(
                    old(self).gens()[id_index(id.0) as int],
                )
            },
            forall|id: Id| #[trigger] old(self).is_stale(id) ==> final(self).is_stale(id),
            id_event_step(*old(self), alloc_event(r), *final(self)),
    {
        let new_len = self.gens.len() + 1;
        if self.free_indices.len() > MIN_FREE_INDICES || new_len >= self.capacity {
            let index = match self.free_indices.pop_front() {
                Some(i) => i,
                None => return Err(IdError::OutOfSpace),
            };
            let ghost old_free = old(self).free_indices@;
            let ghost old_gens = old(self).gens@;
            assert(old_free[0] == index);
            let gen = IdSystem::mark_generation_as_alive(self.gens[index as usize]);
            self.gens.set(index as usize, gen);
            proof {
                lemma_compose_fields(index, gen);
                assert forall|k: int| 0 <= k < self.free_indices@.len() implies {
                    &&& #[trigger] self.free_indices@[k] < self.gens@.len()
                    &&& self.gens@[self.free_indices@[k] as int] % 2 == 0
                } by {
                    assert(self.free_indices@[k] == old_free[k + 1]);
                    assert(old_free[k + 1] != old_free[0]);
                }
                assert forall|i: int| 0 <= i < self.gens@.len() && #[trigger] self.gens@[i] % 2 == 0
                    implies self.free_indices@.contains(i as u64) by {
                    assert(i != index as int);
                    assert(old_gens[i] % 2 == 0);
                    assert(old_free.contains(i as u64));
                    let k = choose|k: int| 0 <= k < old_free.len() && old_free[k] == i as u64;
                    assert(k != 0);
                    assert(self.free_indices@[k - 1] == i as u64);
                }
            }
            proof {
                let new_id = Id(id_compose(index, gen));
                assert forall|x: Id| #[trigger] self.spec_is_id_valid(x) == (x == new_id || old(self).spec_is_id_valid(x)) by {
                    lemma_decompose(x.0);
                    if id_index(x.0) == index {
                        assert(old_gens[index as int] % 2 == 0);
                        if self.spec_is_id_valid(x) {
                            assert(x.0 == new_id.0);
                        }
                    }
                }
            }
            Ok(Id::new(index, gen))
        } else {
            let index = self.gens.len() as u64;
            let gen = IdSystem::mark_generation_as_alive(0);
            self.gens.push(gen);
            proof {
                lemma_compose_fields(index, gen);
                assert forall|k: int| 0 <= k < self.free_indices@.len() implies {
                    &&& #[trigger] self.free_indices@[k] < self.gens@.len()
                    &&& self.gens@[self.free_indices@[k] as int] % 2 == 0
                } by {
                    assert(old(self).free_indices@[k] < old(self).gens@.len());
                }
                assert forall|i: int| 0 <= i < self.gens@.len() && #[trigger] self.gens@[i] % 2 == 0
                    implies self.free_indices@.contains(i as u64) by {
                    assert(i < old(self).gens@.len());
                    assert(old(self).gens@[i] % 2 == 0);
                }
                let new_id = Id(id_compose(index, gen));
                assert forall|x: Id| #[trigger] self.spec_is_id_valid(x) == (x == new_id || old(self).spec_is_id_valid(x)) by {
                    lemma_decompose(x.0);
                    if id_index(x.0) == index && self.spec_is_id_valid(x) {
                        assert(x.0 == new_id.0);
                    }
                }
            }
            Ok(Id::new(index, gen))
        }
    }

    /// Frees a live id: its slot's generation advances to an even value and the
    /// index joins the back of the free list. Ids that are not live are ignored.
    pub fn free_id(&mut self, id: Id)
        requires
            old(self).wf(),
            old(self).spec_is_id_valid(id) ==> id_generation(id.0) < 0xFFFF,
        ensures
            final(self).wf(),
            final(self).capacity() == old(self).capacity(),
            old(self).spec_is_id_valid(id) ==> {
                &&& final(self).gens() == old(self).gens().update(
                    id_index(id.0) as int,
                    (id_generation(id.0) + 1) as u16,
                )
                &&& final(self).free_list() == old(self).free_list().push(id_index(id.0))
            },
            !old(self).spec_is_id_valid(id) ==> {
                &&& final(self).gens() == old(self).gens()
                &&& final(self).free_list() == old(self).free_list()
            },
            !final(self).spec_is_id_valid(id),
            old(self).spec_is_id_valid(id) ==> final(self).is_stale(id),
            forall|other: Id| #[trigger] old(self).is_stale(other) ==> final(self).is_stale(other),
            id_event_step(*old(self), IdEvent::Freed(id), *final(self)),
    {
        if self.is_id_valid(id) {
            let index = id.get_index();
            let gen = id.get_generation();
            let new_gen = IdSystem::mark_generation_as_free(gen);
            self.gens.set(index as usize, new_gen);
            self.free_indices.push_back(index);
            proof {
                let old_free = old(self).free_indices@;
                let old_gens = old(self).gens@;
                assert(!old_free.contains(index)) by {
                    if old_free.contains(index) {
                        let k = choose|k: int| 0 <= k < old_free.len() && old_free[k] == index;
                        assert(old_gens[old_free[k] as int] % 2 == 0);
                    }
                }
                assert forall|k: int| 0 <= k < self.free_indices@.len() implies {
                    &&& #[trigger] self.free_indices@[k] < self.gens@.len()
                    &&& self.gens@[self.free_indices@[k] as int] % 2 == 0
                } by {
                    if k < old_free.len() {
                        assert(self.free_indices@[k] == old_free[k]);
                        assert(old_free[k] != index);
                    }
                }
                assert forall|k1: int, k2: int|
                    0 <= k1 < self.free_indices@.len() && 0 <= k2 < self.free_indices@.len() && k1 != k2
                    implies #[trigger] self.free_indices@[k1] != #[trigger] self.free_indices@[k2] by {
                    if k1 < old_free.len() && k2 < old_free.len() {
                    } else if k1 < old_free.len() {
                        assert(old_free[k1] != index);
                    } else if k2 < old_free.len() {
                        assert(old_free[k2] != index);
                    }
                }
                assert forall|x: Id| #[trigger] self.spec_is_id_valid(x) == (x != id && old(self).spec_is_id_valid(x)) by {
                    lemma_decompose(x.0);
                    lemma_decompose(id.0);
                    if id_index(x.0) == index && old(self).spec_is_id_valid(x) {
                        assert(x.0 == id.0);
                    }
                }
                assert forall|i: int| 0 <= i < self.gens@.len() && #[trigger] self.gens@[i] % 2 == 0
                    implies self.free_indices@.contains(i as u64) by {
                    if i == index as int {
                        assert(self.free_indices@[old_free.len() as int] == index);
                    } else {
                        assert(old_gens[i] % 2 == 0);
                        let k = choose|k: int| 0 <= k < old_free.len() && old_free[k] == i as u64;
                        assert(self.free_indices@[k] == i as u64);
                    }
                }
            }
        }
    }
}

/// In a well-formed table the invalid id is never valid, and every valid id
/// has a live (odd) generation.
pub proof fn lemma_invalid_id_never_valid(sys: &IdSystem)
    requires
        sys.wf(),
    ensures
        !sys.spec_is_id_valid(Id(INVALID_ID_VALUE)),
        forall|x: Id| #[trigger] sys.spec_is_id_valid(x) ==> id_generation(x.0) % 2 == 1,
{
    sys.lemma_wf_bounds();
    lemma_invalid_index();
}

/// A stale id (one whose slot generation has moved past it) is never valid.
pub proof fn lemma_stale_is_invalid(sys: &IdSystem, id: Id)
    requires
        sys.is_stale(id),
    ensures
        !sys.spec_is_id_valid(id),
{
}

/// One step of an id table: an allocation that returned an id, an
/// allocation that failed, or a free of an id.
pub ghost enum IdEvent {
    Allocated(Id),
    AllocFailed,
    Freed(Id),
}

/// The event an allocation's result makes.
pub open spec fn alloc_event(r: Result<Id, IdError>) -> IdEvent {
    match r {
        Ok(id) => IdEvent::Allocated(id),
        Err(_) => IdEvent::AllocFailed,
    }
}

/// How one event changes which ids are valid: an allocated id becomes
/// valid, a freed id stops being valid, and no other id changes.
pub open spec fn id_event_step(before: IdSystem, ev: IdEvent, after: IdSystem) -> bool {
    forall|x: Id|
        #[trigger] after.spec_is_id_valid(x) == match ev {
            IdEvent::Allocated(a) => x == a || before.spec_is_id_valid(x),
            IdEvent::AllocFailed => before.spec_is_id_valid(x),
            IdEvent::Freed(f) => x != f && before.spec_is_id_valid(x),
        }
}

/// The ids valid in a table.
pub open spec fn valid_ids(sys: IdSystem) -> Set<Id> {
    Set::new(|x: Id| sys.spec_is_id_valid(x))
}

/// Whether an allocation of `events` returned `id` and no later event freed
/// it.
pub open spec fn allocated_not_freed(events: Seq<IdEvent>, id: Id) -> bool {
    exists|j: int|
        0 <= j < events.len() && #[trigger] events[j] == IdEvent::Allocated(id) && forall|k: int|
            j < k < events.len() ==> events[k] != IdEvent::Freed(id)
}

/// An id is valid exactly when an allocation returned it and it has not
/// been freed since: over any run of allocations and frees from a table
/// with no valid id (as `IdSystem::new` makes), each step as `alloc_id` and
/// `free_id` state it.
pub proof fn lemma_valid_iff_allocated_not_freed(states: Seq<IdSystem>, events: Seq<IdEvent>, id: Id)
    requires
        states.len() == events.len() + 1,
        forall|x: Id| !states[0].spec_is_id_valid(x),
        forall|i: int| 0 <= i < events.len() ==> #[trigger] id_event_step(states[i], events[i], states[i + 1]),
    ensures
        states.last().spec_is_id_valid(id) == allocated_not_freed(events, id),
    decreases events.len(),
{
    let n = events.len();
    if n == 0 {
        assert(!allocated_not_freed(events, id));
    } else {
        let es = events.drop_last();
        let ss = states.drop_last();
        assert forall|i: int| 0 <= i < es.len() implies #[trigger] id_event_step(ss[i], es[i], ss[i + 1]) by {
            assert(id_event_step(states[i], events[i], states[i + 1]));
        }
        lemma_valid_iff_allocated_not_freed(ss, es, id);
        assert(ss.last() == states[n - 1]);
        assert(id_event_step(states[n - 1], events[n - 1], states[n as int]));
        let before = allocated_not_freed(es, id);
        let ev = events[n - 1];
        if allocated_not_freed(events, id) {
            let j = choose|j: int|
                0 <= j < events.len() && #[trigger] events[j] == IdEvent::Allocated(id) && forall|k: int|
                    j < k < events.len() ==> events[k] != IdEvent::Freed(id);
            if j < n - 1 {
                assert(es[j] == IdEvent::Allocated(id));
                assert(before);
            }
        } else {
            if before {
                let j = choose|j: int|
                    0 <= j < es.len() && #[trigger] es[j] == IdEvent::Allocated(id) && forall|k: int|
                        j < k < es.len() ==> es[k] != IdEvent::Freed(id);
                assert(events[j] == IdEvent::Allocated(id));
                assert(!(forall|k: int| j < k < events.len() ==> events[k] != IdEvent::Freed(id)));
                let k = choose|k: int| j < k < events.len() && events[k] == IdEvent::Freed(id);
                if k < n - 1 {
                    assert(es[k] == events[k]);
                }
                assert(ev == IdEvent::Freed(id));
            }
            assert(ev != IdEvent::Allocated(id));
        }
    }
}

/// A table never holds more valid ids than it was made for.
pub proof fn lemma_valid_ids_bounded(sys: &IdSystem)
    requires
        sys.wf(),
    ensures
        valid_ids(*sys).finite(),
        valid_ids(*sys).len() <= sys.capacity(),
{
    sys.lemma_wf_bounds();
    let gens = sys.gens();
    let n = gens.len() as int;
    let range = vstd::set_lib::set_int_range(0, n);
    let f = |i: int| Id(id_compose(i as u64, gens[i]));
    vstd::set_lib::lemma_int_range(0, n);
    vstd::set_lib::lemma_map_size_bound(range, range.map(f), f);
    assert forall|x: Id| valid_ids(*sys).contains(x) implies #[trigger] range.map(f).contains(x) by {
        lemma_decompose(x.0);
        let i = id_index(x.0) as int;
        assert(range.contains(i));
        assert(f(i) == x);
    }
    vstd::set_lib::lemma_len_subset(valid_ids(*sys), range.map(f));
}

} // verus!
