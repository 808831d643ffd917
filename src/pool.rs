use vstd::prelude::*;

verus! {

/// Number of slots appended at once when the pool has no free slot left.
pub const PAGE_SIZE: usize = 64;

/// Upper bound on the number of slots, a whole number of pages; the index
/// `u32::MAX` is never handed out, so it can serve as the null handle.
pub const MAX_SLOTS: usize = 0xFFFF_FFC0;

/// Identity of a pool entry: the slot index and the generation the slot had
/// when the entry was added.
#[derive(Clone, Copy, Debug, PartialEq, Eq, Structural, Hash)]
pub struct PoolId {
    pub index: u32,
    pub generation: u32,
}

impl PoolId {
    pub open spec fn is_null(self) -> bool {
        self.index == u32::MAX
    }

    /// The handle that never names a live entry.
    pub fn null() -> (r: PoolId)
        ensures
            r.is_null(),
            r.generation == 0,
    {
        PoolId { index: u32::MAX, generation: 0 }
    }
}

struct Slot<T> {
    generation: u32,
    value: Option<T>,
}

/// Generational arena: stable, reusable identities for payloads.
///
/// A deleted slot bumps its generation, so an id of the deleted entry is
/// rejected even after its index has been reused. A slot whose generation
/// cannot be bumped any further is never reused.
pub struct SlotPool<T> {
    slots: Vec<Slot<T>>,
    free: Vec<u32>,
}

impl<T> SlotPool<T> {
    spec fn live(&self, id: PoolId) -> bool {
        &&& (id.index as int) < self.slots@.len()
        &&& self.slots@[id.index as int].generation == id.generation
        &&& self.slots@[id.index as int].value is Some
    }

    /// The live entries, by id.
    pub closed spec fn view(&self) -> Map<PoolId, T> {
        Map::new(
            |id: PoolId| self.live(id),
            |id: PoolId| self.slots@[id.index as int].value->Some_0,
        )
    }

    /// Ids that were handed out by `add` and later deleted.
    pub closed spec fn retired(&self) -> Set<PoolId> {
        Set::new(
            |id: PoolId|
                (id.index as int) < self.slots@.len() && {
                    let s = self.slots@[id.index as int];
                    id.generation < s.generation || (id.generation == s.generation && s.value is None
                        && !self.free@.contains(id.index))
                },
        )
    }

    /// Indices of free slots; the last one is reused first.
    pub closed spec fn free_indices(&self) -> Seq<u32> {
        self.free@
    }

    /// Number of slots, occupied or not.
    pub closed spec fn slot_count(&self) -> nat {
        self.slots@.len()
    }

    /// Whether `add` can hand out one more id.
    pub open spec fn has_room_spec(&self) -> bool {
        self.free_indices().len() > 0 || self.slot_count() + PAGE_SIZE <= MAX_SLOTS
    }

    /// How many more ids `add` can hand out before the pool is full.
    pub closed spec fn room(&self) -> nat {
        (self.free@.len() + (MAX_SLOTS - self.slots@.len())) as nat
    }

    pub closed spec fn wf(&self) -> bool {
        &&& self.slots@.len() <= MAX_SLOTS
        &&& (self.slots@.len() as int) % (PAGE_SIZE as int) == 0
        &&& self.free@.no_duplicates()
        &&& forall|k: int|
            0 <= k < self.free@.len() ==> (self.free@[k] as int) < self.slots@.len()
                && self.slots@[self.free@[k] as int].value is None
        &&& forall|i: int|
            0 <= i < self.slots@.len() && self.slots@[i].value is None ==> (self.free@.contains(
                i as u32,
            ) || self.slots@[i].generation == u32::MAX)
    }

    /// `add` can hand out an id exactly when some room is left.
    pub proof fn lemma_room(&self)
        requires
            self.wf(),
        ensures
            self.has_room_spec() <==> self.room() > 0,
    {
    }

    /// A retired id is never live again.
    pub proof fn lemma_retired_not_live(&self, id: PoolId)
        requires
            self.wf(),
            self.retired().contains(id),
        ensures
            !self@.contains_key(id),
    {
    }

    /// The null id is never live, nor retired.
    pub proof fn lemma_null_not_live(&self, id: PoolId)
        requires
            self.wf(),
            id.is_null(),
        ensures
            !self@.contains_key(id),
            !self.retired().contains(id),
    {
    }

    pub fn new() -> (r: Self)
        ensures
            r.wf(),
            r@ == Map::<PoolId, T>::empty(),
            r.retired() == Set::<PoolId>::empty(),
            r.slot_count() == 0,
            r.free_indices() == Seq::<u32>::empty(),
            r.room() == MAX_SLOTS,
    {
        let r = SlotPool { slots: Vec::new(), free: Vec::new() };
        assert(r@ =~= Map::<PoolId, T>::empty());
        assert(r.retired() =~= Set::<PoolId>::empty());
        r
    }

    pub fn has_room(&self) -> (r: bool)
        requires
            self.wf(),
        ensures
            r == self.has_room_spec(),
    {
        self.free.len() > 0 || self.slots.len() <= MAX_SLOTS - PAGE_SIZE
    }

    /// Whether `add` can be called `n` more times.
    pub fn has_room_for(&self, n: usize) -> (r: bool)
        requires
            self.wf(),
        ensures
            r == (self.room() >= n),
    {
        if self.free.len() >= n {
            true
        } else {
            MAX_SLOTS - self.slots.len() >= n - self.free.len()
        }
    }

    /// Whether `id` names a live entry.
    pub fn contains(&self, id: PoolId) -> (r: bool)
        ensures
            r == self@.contains_key(id),
    {
        let i = id.index as usize;
        if i < self.slots.len() {
            let s = &self.slots[i];
            s.generation == id.generation && s.value.is_some()
        } else {
            false
        }
    }

    /// Appends a page of empty slots and makes them free, lowest index last.
    fn grow(&mut self)
        requires
            old(self).wf(),
            old(self).free@.len() == 0,
            old(self).slots@.len() + PAGE_SIZE <= MAX_SLOTS,
        ensures
            final(self).wf(),
            final(self)@ == old(self)@,
            final(self).retired() == old(self).retired(),
            final(self).slots@.len() == old(self).slots@.len() + PAGE_SIZE,
            final(self).free@ == Seq::new(
                PAGE_SIZE as nat,
                |k: int| (old(self).slots@.len() + PAGE_SIZE - 1 - k) as u32,
            ),
            forall|i: int|
                0 <= i < old(self).slots@.len() ==> final(self).slots@[i] == old(self).slots@[i],
            forall|i: int|
                old(self).slots@.len() <= i < final(self).slots@.len() ==> final(self).slots@[i]
                    == (Slot::<T> { generation: 0, value: None }),
    {
        let base = self.slots.len();
        let mut k: usize = 0;
        while k < PAGE_SIZE
            invariant
                base == old(self).slots@.len(),
                base + PAGE_SIZE <= MAX_SLOTS,
                k <= PAGE_SIZE,
                self.free@ == old(self).free@,
                self.slots@.len() == base + k,
                forall|i: int| 0 <= i < base ==> self.slots@[i] == old(self).slots@[i],
                forall|i: int|
                    base <= i < self.slots@.len() ==> self.slots@[i] == (Slot::<T> {
                        generation: 0,
                        value: None,
                    }),
            decreases PAGE_SIZE - k,
        {
            self.slots.push(Slot { generation: 0, value: None });
            k = k + 1;
        }
        let mut j: usize = 0;
        while j < PAGE_SIZE
            invariant
                base == old(self).slots@.len(),
                base + PAGE_SIZE <= MAX_SLOTS,
                j <= PAGE_SIZE,
                self.slots@.len() == base + PAGE_SIZE,
                forall|i: int| 0 <= i < base ==> self.slots@[i] == old(self).slots@[i],
                forall|i: int|
                    base <= i < self.slots@.len() ==> self.slots@[i] == (Slot::<T> {
                        generation: 0,
                        value: None,
                    }),
                self.free@ == Seq::new(j as nat, |k: int| (base + PAGE_SIZE - 1 - k) as u32),
            decreases PAGE_SIZE - j,
        {
            self.free.push((base + PAGE_SIZE - 1 - j) as u32);
            j = j + 1;
            assert(self.free@ =~= Seq::new(j as nat, |k: int| (base + PAGE_SIZE - 1 - k) as u32));
        }
        assert forall|k: int| 0 <= k < self.free@.len() implies base <= #[trigger] self.free@[k]
            < base + PAGE_SIZE by {}
        assert forall|i: int|
            0 <= i < self.slots@.len() && self.slots@[i].value is None implies (self.free@.contains(
            i as u32,
        ) || self.slots@[i].generation == u32::MAX) by {
            if i >= base {
                let k = base + PAGE_SIZE - 1 - i;
                assert(self.free@[k] == i as u32);
            } else {
                assert(!old(self).free@.contains(i as u32));
            }
        }
        assert(self@ =~= old(self)@);
        assert forall|id: PoolId| #[trigger]
            self.retired().contains(id) == old(self).retired().contains(id) by {
            if (id.index as int) < base {
                assert(!self.free@.contains(id.index));
            }
        }
        assert(self.retired() =~= old(self).retired());
    }

    /// Stores `x` and returns its new id, reusing the most recently freed slot
    /// before appending a new page.
    pub fn add(&mut self, x: T) -> (id: PoolId)
        requires
            old(self).wf(),
            old(self).has_room_spec(),
        ensures
            final(self).wf(),
            !old(self)@.contains_key(id),
            !old(self).retired().contains(id),
            !id.is_null(),
            final(self)@ == old(self)@.insert(id, x),
            final(self).retired() == old(self).retired(),
            old(self).free_indices().len() > 0 ==> id.index == old(self).free_indices().last()
                && final(self).free_indices() == old(self).free_indices().drop_last()
                && final(self).slot_count() == old(self).slot_count(),
            old(self).free_indices().len() == 0 ==> id.index == old(self).slot_count()
                && final(self).slot_count() == old(self).slot_count() + PAGE_SIZE,
            final(self).room() + 1 == old(self).room(),
    {
        if self.free.len() == 0 {
            self.grow();
        }
        let ghost mid = *self;
        let i = self.free.pop().unwrap();
        assert(mid.free@.no_duplicates());
        assert(!self.free@.contains(i)) by {
            assert(mid.free@ == self.free@.push(i));
            if self.free@.contains(i) {
                let k = choose|k: int| 0 <= k < self.free@.len() && self.free@[k] == i;
                assert(mid.free@[k] == mid.free@[self.free@.len() as int]);
            }
        }
        let g = self.slots[i as usize].generation;
        self.slots[i as usize] = Slot { generation: g, value: Some(x) };
        let id = PoolId { index: i, generation: g };
        assert(self.free@.no_duplicates()) by {
            assert forall|a: int, b: int|
                0 <= a < self.free@.len() && 0 <= b < self.free@.len() && a != b implies self.free@[a]
                != self.free@[b] by {
                assert(self.free@[a] == mid.free@[a]);
                assert(self.free@[b] == mid.free@[b]);
            }
        }
        assert forall|k: int| 0 <= k < self.free@.len() implies (self.free@[k] as int)
            < self.slots@.len() && self.slots@[self.free@[k] as int].value is None by {
            assert(self.free@[k] == mid.free@[k]);
            assert(self.free@[k] != i);
        }
        assert forall|j: int|
            0 <= j < self.slots@.len() && self.slots@[j].value is None implies (self.free@.contains(
            j as u32,
        ) || self.slots@[j].generation == u32::MAX) by {
            assert(j != i as int);
            assert(mid.slots@[j] == self.slots@[j]);
            if mid.free@.contains(j as u32) {
                let k = choose|k: int| 0 <= k < mid.free@.len() && mid.free@[k] == j as u32;
                assert(k < self.free@.len());
                assert(self.free@[k] == j as u32);
            }
        }
        assert(self@ =~= mid@.insert(id, x));
        assert forall|r: PoolId| #[trigger]
            self.retired().contains(r) == mid.retired().contains(r) by {
            if r.index == i {
                assert(mid.free@.contains(i));
            } else {
                if (r.index as int) < self.slots@.len() {
                    assert(self.slots@[r.index as int] == mid.slots@[r.index as int]);
                    if mid.free@.contains(r.index) {
                        let k = choose|k: int| 0 <= k < mid.free@.len() && mid.free@[k] == r.index;
                        assert(self.free@[k] == r.index);
                    }
                }
            }
        }
        assert(self.retired() =~= mid.retired());
        assert(mid.free@.contains(i));
        id
    }

    /// The payload of a live id.
    pub fn get_ref(&self, id: PoolId) -> (r: &T)
        requires
            self@.contains_key(id),
        ensures
            *r == self@[id],
    {
        self.slots[id.index as usize].value.as_ref().unwrap()
    }

    /// Mutable access to the payload of a live id; the ids and the free list
    /// stay as they were.
    pub fn get_mut(&mut self, id: PoolId) -> (r: &mut T)
        requires
            old(self).wf(),
            old(self)@.contains_key(id),
        ensures
            *r == old(self)@[id],
            final(self).wf(),
            final(self)@ == old(self)@.insert(id, *final(r)),
            final(self).retired() == old(self).retired(),
            final(self).free_indices() == old(self).free_indices(),
            final(self).slot_count() == old(self).slot_count(),
            final(self).room() == old(self).room(),
    {
        self.slots[id.index as usize].value.as_mut().unwrap()
    }

    /// Removes a live entry and hands its payload back; the id is retired.
    pub fn delete(&mut self, id: PoolId) -> (r: T)
        requires
            old(self).wf(),
            old(self)@.contains_key(id),
        ensures
            final(self).wf(),
            r == old(self)@[id],
            final(self)@ == old(self)@.remove(id),
            final(self).retired() == old(self).retired().insert(id),
            final(self).slot_count() == old(self).slot_count(),
            final(self).room() >= old(self).room(),
            final(self).free_indices() == if id.generation < u32::MAX {
                old(self).free_indices().push(id.index)
            } else {
                old(self).free_indices()
            },
    {
        let ghost pre = *self;
        let i = id.index as usize;
        let g = self.slots[i].generation;
        let v = self.slots[i].value.take().unwrap();
        assert(!pre.free@.contains(id.index)) by {
            if pre.free@.contains(id.index) {
                let k = choose|k: int| 0 <= k < pre.free@.len() && pre.free@[k] == id.index;
            }
        }
        if g < u32::MAX {
            self.slots[i] = Slot { generation: g + 1, value: None };
            self.free.push(id.index);
            assert(self.free@.no_duplicates()) by {
                assert forall|a: int, b: int|
                    0 <= a < self.free@.len() && 0 <= b < self.free@.len() && a != b implies self.free@[a]
                    != self.free@[b] by {
                    if a < pre.free@.len() && b < pre.free@.len() {
                        assert(self.free@[a] == pre.free@[a]);
                        assert(self.free@[b] == pre.free@[b]);
                    } else if a < pre.free@.len() {
                        assert(self.free@[a] == pre.free@[a]);
                    } else {
                        assert(self.free@[b] == pre.free@[b]);
                    }
                }
            }
        }
        assert forall|k: int| 0 <= k < self.free@.len() implies (self.free@[k] as int)
            < self.slots@.len() && self.slots@[self.free@[k] as int].value is None by {
            if k < pre.free@.len() {
                assert(self.free@[k] == pre.free@[k]);
            }
        }
        assert forall|j: int|
            0 <= j < self.slots@.len() && self.slots@[j].value is None implies (self.free@.contains(
            j as u32,
        ) || self.slots@[j].generation == u32::MAX) by {
            if j == i as int {
                if g < u32::MAX {
                    assert(self.free@[self.free@.len() - 1] == id.index);
                }
            } else {
                assert(pre.slots@[j] == self.slots@[j]);
                if pre.free@.contains(j as u32) {
                    let k = choose|k: int| 0 <= k < pre.free@.len() && pre.free@[k] == j as u32;
                    assert(self.free@[k] == j as u32);
                }
            }
        }
        assert(self@ =~= pre@.remove(id));
        assert forall|r: PoolId| #[trigger]
            self.retired().contains(r) == pre.retired().insert(id).contains(r) by {
            if r.index == id.index {
                if g < u32::MAX {
                    assert(self.free@.contains(id.index)) by {
                        assert(self.free@[self.free@.len() - 1] == id.index);
                    }
                }
            } else if (r.index as int) < self.slots@.len() {
                assert(self.slots@[r.index as int] == pre.slots@[r.index as int]);
                if pre.free@.contains(r.index) {
                    let k = choose|k: int| 0 <= k < pre.free@.len() && pre.free@[k] == r.index;
                    assert(self.free@[k] == r.index);
                }
                if self.free@.contains(r.index) {
                    let k = choose|k: int| 0 <= k < self.free@.len() && self.free@[k] == r.index;
                    if k < pre.free@.len() {
                        assert(pre.free@[k] == r.index);
                    }
                }
            }
        }
        assert(self.retired() =~= pre.retired().insert(id));
        v
    }

    /// `post` is `pre` after `event`, as `add` and `delete` promise it.
    pub open spec fn steps_to(pre: Self, event: PoolEvent<T>, post: Self) -> bool {
        &&& pre.wf()
        &&& post.wf()
        &&& match event {
            PoolEvent::Added(id, x) => {
                &&& !pre@.contains_key(id)
                &&& !pre.retired().contains(id)
                &&& post@ == pre@.insert(id, x)
                &&& post.retired() == pre.retired()
            },
            PoolEvent::Deleted(id) => {
                &&& pre@.contains_key(id)
                &&& post@ == pre@.remove(id)
                &&& post.retired() == pre.retired().insert(id)
            },
        }
    }

    /// `states` is a run of the pool from empty through `events`.
    pub open spec fn is_run(states: Seq<Self>, events: Seq<PoolEvent<T>>) -> bool {
        &&& states.len() == events.len() + 1
        &&& states[0].wf()
        &&& states[0]@ == Map::<PoolId, T>::empty()
        &&& forall|k: int|
            0 <= k < events.len() ==> Self::steps_to(states[k], #[trigger] events[k], states[k + 1])
    }

    /// Over any run of adds and deletes from an empty pool, an id is live at
    /// the end exactly when some add returned it and no later delete took it,
    /// and its payload is the one that add stored.
    pub proof fn lemma_history(states: Seq<Self>, events: Seq<PoolEvent<T>>, id: PoolId)
        requires
            Self::is_run(states, events),
        ensures
            states.last()@.contains_key(id) <==> exists|k: int|
                0 <= k < events.len() && #[trigger] added_and_kept(events, id, k),
            forall|k: int|
                0 <= k < events.len() && #[trigger] added_and_kept(events, id, k)
                    ==> states.last()@[id] == events[k]->Added_1,
        decreases events.len(),
    {
        let n = events.len() as int;
        if n == 0 {
            return;
        }
        let s0 = states.drop_last();
        let e0 = events.drop_last();
        assert forall|k: int| 0 <= k < e0.len() implies Self::steps_to(
            s0[k],
            #[trigger] e0[k],
            s0[k + 1],
        ) by {
            assert(Self::steps_to(states[k], events[k], states[k + 1]));
        }
        Self::lemma_history(s0, e0, id);
        let pre = states[n - 1];
        let post = states[n];
        assert(s0.last() == pre);
        assert(Self::steps_to(pre, events[n - 1], post));
        let last_deletes = events[n - 1] == PoolEvent::<T>::Deleted(id);
        assert forall|k: int| 0 <= k < n - 1 implies #[trigger] added_and_kept(events, id, k) == (
        added_and_kept(e0, id, k) && !last_deletes) by {
            assert(e0[k] == events[k]);
            if no_delete_after(events, id, k) {
                assert forall|j: int| k < j < e0.len() implies e0[j] != PoolEvent::<T>::Deleted(id) by {
                    assert(e0[j] == events[j]);
                }
            }
            if no_delete_after(e0, id, k) && !last_deletes {
                assert forall|j: int| k < j < events.len() implies events[j] != PoolEvent::<T>::Deleted(
                    id,
                ) by {
                    if j < n - 1 {
                        assert(e0[j] == events[j]);
                    }
                }
            }
        }
        let adds_id = events[n - 1] is Added && events[n - 1]->Added_0 == id;
        if adds_id {
            assert(added_and_kept(events, id, n - 1));
            assert(!pre@.contains_key(id));
            assert forall|k: int|
                0 <= k < events.len() && #[trigger] added_and_kept(events, id, k) implies k == n - 1 by {
                if k < n - 1 {
                    assert(added_and_kept(e0, id, k));
                }
            }
        } else {
            assert(!added_and_kept(events, id, n - 1));
            if last_deletes {
                assert(!post@.contains_key(id));
                assert forall|k: int| 0 <= k < events.len() implies !#[trigger] added_and_kept(
                    events,
                    id,
                    k,
                ) by {}
            } else {
                assert(post@.contains_key(id) == pre@.contains_key(id));
                assert(post@.contains_key(id) ==> post@[id] == pre@[id]);
                if pre@.contains_key(id) {
                    let k = choose|k: int| 0 <= k < e0.len() && #[trigger] added_and_kept(e0, id, k);
                    assert(added_and_kept(events, id, k));
                }
                if exists|k: int| 0 <= k < events.len() && #[trigger] added_and_kept(events, id, k) {
                    let k = choose|k: int| 0 <= k < events.len() && #[trigger] added_and_kept(events, id, k);
                    assert(added_and_kept(e0, id, k));
                }
                assert forall|k: int|
                    0 <= k < events.len() && #[trigger] added_and_kept(events, id, k) implies post@[id]
                    == events[k]->Added_1 by {
                    assert(added_and_kept(e0, id, k));
                    assert(e0[k] == events[k]);
                }
            }
        }
    }

    /// Deleting the id that adding `x` returned gives `x` back and leaves the
    /// pool's entries as they were before the add.
    pub proof fn lemma_round_trip(start: Self, x: T, id: PoolId, mid: Self, y: T, end: Self)
        requires
            Self::steps_to(start, PoolEvent::Added(id, x), mid),
            Self::steps_to(mid, PoolEvent::Deleted(id), end),
            y == mid@[id],
        ensures
            y == x,
            end@ == start@,
    {
        assert(end@ =~= start@);
    }

    /// Once deleted, an id is never live again and no later add returns it,
    /// whatever else the run does.
    pub proof fn lemma_deleted_id_stays_dead(
        states: Seq<Self>,
        events: Seq<PoolEvent<T>>,
        k: int,
        id: PoolId,
    )
        requires
            Self::is_run(states, events),
            0 <= k < events.len(),
            events[k] == PoolEvent::<T>::Deleted(id),
        ensures
            forall|j: int| k < j < states.len() ==> !(#[trigger] states[j])@.contains_key(id),
            forall|j: int|
                k < j < events.len() ==> !((#[trigger] events[j]) is Added && events[j]->Added_0 == id),
    {
        assert forall|j: int| k < j < states.len() implies (#[trigger] states[j]).retired().contains(id) by {
            Self::lemma_retired_grows(states, events, k, j, id);
        }
        assert forall|j: int| k < j < states.len() implies !(#[trigger] states[j])@.contains_key(id) by {
            assert(states[j].retired().contains(id));
            assert(Self::steps_to(states[j - 1], events[j - 1], states[j]));
            states[j].lemma_retired_not_live(id);
        }
        assert forall|j: int| k < j < events.len() implies !((#[trigger] events[j]) is Added
            && events[j]->Added_0 == id) by {
            assert(states[j].retired().contains(id));
            assert(Self::steps_to(states[j], events[j], states[j + 1]));
        }
    }

    proof fn lemma_retired_grows(
        states: Seq<Self>,
        events: Seq<PoolEvent<T>>,
        k: int,
        j: int,
        id: PoolId,
    )
        requires
            Self::is_run(states, events),
            0 <= k < events.len(),
            events[k] == PoolEvent::<T>::Deleted(id),
            k < j < states.len(),
        ensures
            states[j].retired().contains(id),
        decreases j - k,
    {
        assert(Self::steps_to(states[j - 1], events[j - 1], states[j]));
        if j > k + 1 {
            Self::lemma_retired_grows(states, events, k, j - 1, id);
        }
    }

    /// A delete followed by an add reuses the deleted index (unless the slot
    /// has run out of generations), under a new id.
    pub proof fn lemma_index_reused(start: Self, id: PoolId, mid: Self, x: T, id2: PoolId, end: Self)
        requires
            Self::steps_to(start, PoolEvent::Deleted(id), mid),
            id.generation < u32::MAX,
            mid.free_indices() == start.free_indices().push(id.index),
            mid.free_indices().len() > 0 ==> id2.index == mid.free_indices().last(),
            Self::steps_to(mid, PoolEvent::Added(id2, x), end),
        ensures
            id2.index == id.index,
            id2 != id,
            !end@.contains_key(id),
    {
        end.lemma_retired_not_live(id);
    }
}

/// A completed pool operation: an add with the id it returned, or a delete.
pub enum PoolEvent<T> {
    Added(PoolId, T),
    Deleted(PoolId),
}

/// The event at `k` is an add that returned `id`, and no later event deletes it.
pub open spec fn added_and_kept<T>(events: Seq<PoolEvent<T>>, id: PoolId, k: int) -> bool {
    events[k] is Added && events[k]->Added_0 == id && no_delete_after(events, id, k)
}

/// No event after position `k` deletes `id`.
pub open spec fn no_delete_after<T>(events: Seq<PoolEvent<T>>, id: PoolId, k: int) -> bool {
    forall|j: int| k < j < events.len() ==> events[j] != PoolEvent::<T>::Deleted(id)
}

} // verus!
