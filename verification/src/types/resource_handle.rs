use vstd::prelude::*;
use std::marker::PhantomData;

verus! {

/// Which slot of a pool a resource and its handles share, and which use of that slot.
#[derive(PartialEq, Eq, Structural)]
pub struct ResourceAlloc {
    slot: usize,
    generation: u64,
}

impl ResourceAlloc {
    pub closed spec fn spec_slot(&self) -> int {
        self.slot as int
    }

    pub closed spec fn spec_generation(&self) -> u64 {
        self.generation
    }
}

/// The owner of a value kept in a `ResourcePool`; the value lives as long as its owner.
pub struct Resource<T> {
    alloc: ResourceAlloc,
    has_data: bool,
    marker: PhantomData<T>,
}

/// A shared reference to the value of a `Resource`, which knows when the value is gone.
pub struct ResourceHandle<T> {
    alloc: ResourceAlloc,
    marker: PhantomData<T>,
}

/// A reference to the value of a `Resource` through which the value can be changed.
pub struct ResourceHandleMut<T> {
    alloc: ResourceAlloc,
    marker: PhantomData<T>,
}

impl<T> Resource<T> {
    pub closed spec fn spec_alloc(&self) -> &ResourceAlloc {
        &self.alloc
    }

    pub closed spec fn spec_has_data(&self) -> bool {
        self.has_data
    }

    /// Whether this resource owns a value (a null resource owns none).
    pub fn is_valid(&self) -> (r: bool)
        ensures
            r == self.spec_has_data(),
    {
        self.has_data
    }
}

impl<T> ResourceHandle<T> {
    pub closed spec fn spec_alloc(&self) -> &ResourceAlloc {
        &self.alloc
    }
}

impl<T> ResourceHandleMut<T> {
    pub closed spec fn spec_alloc(&self) -> &ResourceAlloc {
        &self.alloc
    }
}

impl<T> Resource<T> {
    /// A resource that owns `data`, kept in `pool`.
    pub fn new(pool: &mut ResourcePool<T>, data: T) -> (r: Resource<T>)
        requires
            old(pool).wf(),
        ensures
            final(pool).wf(),
            r.spec_has_data(),
            final(pool).spec_slots() == after_create(old(pool).spec_slots(), Some(data)),
            r.spec_alloc().spec_slot() == spec_new_slot(old(pool).spec_slots()),
            reaches(final(pool).spec_slots(), r.spec_alloc().spec_slot(), r.spec_alloc().spec_generation()),
            final(pool).spec_slots()[r.spec_alloc().spec_slot()] == (SlotView { data: Some(data), count: 1, generation: r.spec_alloc().spec_generation() }),
    {
        pool.create(data)
    }

    /// A resource that owns no value; handles to it are never valid.
    pub fn null(pool: &mut ResourcePool<T>) -> (r: Resource<T>)
        requires
            old(pool).wf(),
        ensures
            final(pool).wf(),
            !r.spec_has_data(),
            final(pool).spec_slots() == after_create(old(pool).spec_slots(), None),
            r.spec_alloc().spec_slot() == spec_new_slot(old(pool).spec_slots()),
            tracks(final(pool).spec_slots(), r.spec_alloc().spec_slot(), r.spec_alloc().spec_generation()),
            !reaches(final(pool).spec_slots(), r.spec_alloc().spec_slot(), r.spec_alloc().spec_generation()),
    {
        pool.create_null()
    }

    /// A handle to the value of this resource, which must own one.
    pub fn handle(&self, pool: &mut ResourcePool<T>) -> (r: ResourceHandle<T>)
        requires
            old(pool).wf(),
            self.spec_has_data(),
            tracks(old(pool).spec_slots(), self.spec_alloc().spec_slot(), self.spec_alloc().spec_generation()),
            old(pool).spec_slots()[self.spec_alloc().spec_slot()].count < usize::MAX,
        ensures
            final(pool).wf(),
            final(pool).spec_slots() == after_share(old(pool).spec_slots(), self.spec_alloc().spec_slot()),
            r.spec_alloc() == self.spec_alloc(),
    {
        pool.handle(self)
    }

    /// A handle through which the value of this resource, which must own one, can be changed.
    pub fn handle_mut(&self, pool: &mut ResourcePool<T>) -> (r: ResourceHandleMut<T>)
        requires
            old(pool).wf(),
            self.spec_has_data(),
            tracks(old(pool).spec_slots(), self.spec_alloc().spec_slot(), self.spec_alloc().spec_generation()),
            old(pool).spec_slots()[self.spec_alloc().spec_slot()].count < usize::MAX,
        ensures
            final(pool).wf(),
            final(pool).spec_slots() == after_share(old(pool).spec_slots(), self.spec_alloc().spec_slot()),
            r.spec_alloc() == self.spec_alloc(),
    {
        pool.handle_mut(self)
    }
}

impl<T> ResourceHandle<T> {
    /// A handle that is never valid.
    pub fn null(pool: &mut ResourcePool<T>) -> (r: ResourceHandle<T>)
        requires
            old(pool).wf(),
        ensures
            final(pool).wf(),
            final(pool).spec_slots() == after_create(old(pool).spec_slots(), None),
            tracks(final(pool).spec_slots(), r.spec_alloc().spec_slot(), r.spec_alloc().spec_generation()),
            !reaches(final(pool).spec_slots(), r.spec_alloc().spec_slot(), r.spec_alloc().spec_generation()),
    {
        pool.null_handle()
    }

    /// Whether this handle still reaches a value: false once the owner has gone.
    pub fn is_valid(&self, pool: &ResourcePool<T>) -> (r: bool)
        ensures
            r == reaches(pool.spec_slots(), self.spec_alloc().spec_slot(), self.spec_alloc().spec_generation()),
    {
        pool.is_handle_valid(self)
    }

    /// Another handle to the same value.
    pub fn clone(&self, pool: &mut ResourcePool<T>) -> (r: ResourceHandle<T>)
        requires
            old(pool).wf(),
            tracks(old(pool).spec_slots(), self.spec_alloc().spec_slot(), self.spec_alloc().spec_generation()),
            old(pool).spec_slots()[self.spec_alloc().spec_slot()].count < usize::MAX,
        ensures
            final(pool).wf(),
            final(pool).spec_slots() == after_share(old(pool).spec_slots(), self.spec_alloc().spec_slot()),
            r.spec_alloc() == self.spec_alloc(),
    {
        pool.clone_handle(self)
    }
}

impl<T> ResourceHandleMut<T> {
    /// Whether this handle still reaches a value: false once the owner has gone.
    pub fn is_valid(&self, pool: &ResourcePool<T>) -> (r: bool)
        ensures
            r == reaches(pool.spec_slots(), self.spec_alloc().spec_slot(), self.spec_alloc().spec_generation()),
    {
        pool.is_handle_mut_valid(self)
    }

    /// A read-only handle to the same value.
    pub fn as_ref(&self, pool: &mut ResourcePool<T>) -> (r: ResourceHandle<T>)
        requires
            old(pool).wf(),
            tracks(old(pool).spec_slots(), self.spec_alloc().spec_slot(), self.spec_alloc().spec_generation()),
            old(pool).spec_slots()[self.spec_alloc().spec_slot()].count < usize::MAX,
        ensures
            final(pool).wf(),
            final(pool).spec_slots() == after_share(old(pool).spec_slots(), self.spec_alloc().spec_slot()),
            r.spec_alloc() == self.spec_alloc(),
    {
        pool.as_ref(self)
    }
}

/// What a slot of a pool holds: the value, the number of live references (the owner and the
/// handles) and how many times the slot was freed.
pub struct SlotView<T> {
    pub data: Option<T>,
    pub count: nat,
    pub generation: u64,
}

struct Slot<T> {
    data: Option<T>,
    count: usize,
    generation: u64,
}

/// The slots of the values of type `T`, with the reference counts and the validity that
/// resources and handles share.
pub struct ResourcePool<T> {
    slots: Vec<Slot<T>>,
}

/// A free slot holds no value, and a slot in use can be freed once more.
pub open spec fn slots_wf<T>(s: Seq<SlotView<T>>) -> bool {
    forall|i: int| 0 <= i < s.len() ==> {
        &&& (#[trigger] s[i]).count == 0 ==> s[i].data is None
        &&& s[i].count > 0 ==> s[i].generation < u64::MAX
    }
}

/// `alloc` designates a slot of `s` in use, in its current use.
pub open spec fn tracks<T>(s: Seq<SlotView<T>>, slot: int, generation: u64) -> bool {
    &&& 0 <= slot < s.len()
    &&& s[slot].generation == generation
    &&& s[slot].count > 0
}

/// A reference to `slot` in its current use reaches a value.
pub open spec fn reaches<T>(s: Seq<SlotView<T>>, slot: int, generation: u64) -> bool {
    tracks(s, slot, generation) && s[slot].data is Some
}

/// The first free slot that can still be used again.
pub open spec fn spec_first_free<T>(s: Seq<SlotView<T>>) -> Option<int>
    decreases s.len(),
{
    if s.len() == 0 {
        None
    } else {
        match spec_first_free(s.drop_last()) {
            Some(i) => Some(i),
            None => if s.last().count == 0 && s.last().generation < u64::MAX {
                Some(s.len() - 1)
            } else {
                None
            },
        }
    }
}

/// The slot a new resource takes: the first reusable free slot, else a new one at the end.
pub open spec fn spec_new_slot<T>(s: Seq<SlotView<T>>) -> int {
    match spec_first_free(s) {
        Some(i) => i,
        None => s.len() as int,
    }
}

/// The slots after a new resource takes a slot with `data` (`None` for a null resource) and
/// one reference.
pub open spec fn after_create<T>(s: Seq<SlotView<T>>, data: Option<T>) -> Seq<SlotView<T>> {
    let i = spec_new_slot(s);
    if i == s.len() {
        s.push(SlotView { data, count: 1, generation: 0 })
    } else {
        s.update(i, SlotView { data, count: 1, generation: s[i].generation })
    }
}

/// The slots after one more reference to `slot`.
pub open spec fn after_share<T>(s: Seq<SlotView<T>>, slot: int) -> Seq<SlotView<T>> {
    s.update(slot, SlotView { data: s[slot].data, count: s[slot].count + 1, generation: s[slot].generation })
}

/// The slots after a reference to `slot` in use `generation` goes away: the last reference
/// frees the slot (its value is dropped and its use ends); a reference to a slot no longer in
/// that use changes nothing.
pub open spec fn after_release<T>(s: Seq<SlotView<T>>, slot: int, generation: u64) -> Seq<SlotView<T>> {
    if !tracks(s, slot, generation) {
        s
    } else if s[slot].count == 1 {
        s.update(slot, SlotView { data: None, count: 0, generation: (s[slot].generation + 1) as u64 })
    } else {
        s.update(slot, SlotView { data: s[slot].data, count: (s[slot].count - 1) as nat, generation: s[slot].generation })
    }
}

/// The slots after the owner of `slot` goes away: its value is dropped, then its reference
/// goes away.
pub open spec fn after_destroy<T>(s: Seq<SlotView<T>>, slot: int, generation: u64) -> Seq<SlotView<T>> {
    if !tracks(s, slot, generation) {
        s
    } else {
        after_release(
            s.update(slot, SlotView { data: None, count: s[slot].count, generation: s[slot].generation }),
            slot,
            generation,
        )
    }
}

impl<T> ResourcePool<T> {
    pub closed spec fn spec_slots(&self) -> Seq<SlotView<T>> {
        self.slots@.map_values(|s: Slot<T>| SlotView { data: s.data, count: s.count as nat, generation: s.generation })
    }

    /// A free slot holds no value, and a slot in use can be freed once more.
    pub open spec fn wf(&self) -> bool {
        slots_wf(self.spec_slots())
    }

    /// An empty pool.
    pub fn new() -> (r: ResourcePool<T>)
        ensures
            r.wf(),
            r.spec_slots() == Seq::<SlotView<T>>::empty(),
    {
        let r = ResourcePool { slots: Vec::new() };
        assert(r.spec_slots() =~= Seq::<SlotView<T>>::empty());
        r
    }

    /// The number of live references (the owner and its handles) to the slot of `resource`;
    /// zero once the slot was freed.
    pub fn reference_count(&self, resource: &Resource<T>) -> (r: usize)
        ensures
            tracks(self.spec_slots(), resource.spec_alloc().spec_slot(), resource.spec_alloc().spec_generation())
                ==> r == self.spec_slots()[resource.spec_alloc().spec_slot()].count,
            !tracks(self.spec_slots(), resource.spec_alloc().spec_slot(), resource.spec_alloc().spec_generation())
                ==> r == 0,
    {
        let alloc = &resource.alloc;
        if alloc.slot < self.slots.len() && self.slots[alloc.slot].generation == alloc.generation {
            self.slots[alloc.slot].count
        } else {
            0
        }
    }

    /// Whether `alloc` designates a slot in use, in its current use.
    fn is_tracked(&self, alloc: &ResourceAlloc) -> (r: bool)
        ensures
            r == tracks(self.spec_slots(), alloc.spec_slot(), alloc.spec_generation()),
    {
        alloc.slot < self.slots.len() && self.slots[alloc.slot].generation == alloc.generation
            && self.slots[alloc.slot].count > 0
    }

    fn first_free(&self) -> (r: Option<usize>)
        ensures
            match r {
                Some(i) => spec_first_free(self.spec_slots()) == Some(i as int),
                None => spec_first_free(self.spec_slots()) is None,
            },
    {
        let mut i: usize = 0;
        while i < self.slots.len()
            invariant
                i <= self.slots.len(),
                spec_first_free(self.spec_slots().take(i as int)) is None,
            decreases self.slots.len() - i,
        {
            assert(self.spec_slots().take(i + 1).drop_last() =~= self.spec_slots().take(i as int));
            if self.slots[i].count == 0 && self.slots[i].generation < u64::MAX {
                proof {
                    lemma_first_free_prefix(self.spec_slots(), i + 1);
                }
                return Some(i);
            }
            i = i + 1;
        }
        assert(self.spec_slots().take(self.slots.len() as int) =~= self.spec_slots());
        None
    }

    fn take_slot(&mut self, data: Option<T>) -> (alloc: ResourceAlloc)
        requires
            old(self).wf(),
        ensures
            final(self).wf(),
            final(self).spec_slots() == after_create(old(self).spec_slots(), data),
            alloc.spec_slot() == spec_new_slot(old(self).spec_slots()),
            reaches(final(self).spec_slots(), alloc.spec_slot(), alloc.spec_generation()) == data is Some,
            tracks(final(self).spec_slots(), alloc.spec_slot(), alloc.spec_generation()),
            final(self).spec_slots()[alloc.spec_slot()] == (SlotView { data, count: 1, generation: alloc.spec_generation() }),
    {
        let ghost s = self.spec_slots();
        match self.first_free() {
            Some(i) => {
                proof {
                    lemma_first_free_is_free(s);
                }
                let generation = self.slots[i].generation;
                self.slots.set(i, Slot { data, count: 1, generation });
                assert(self.spec_slots() =~= after_create(s, data));
                ResourceAlloc { slot: i, generation }
            },
            None => {
                let slot = self.slots.len();
                self.slots.push(Slot { data, count: 1, generation: 0 });
                assert(self.spec_slots() =~= after_create(s, data));
                ResourceAlloc { slot, generation: 0 }
            },
        }
    }

    /// A resource that owns `data`.
    fn create(&mut self, data: T) -> (r: Resource<T>)
        requires
            old(self).wf(),
        ensures
            final(self).wf(),
            r.spec_has_data(),
            final(self).spec_slots() == after_create(old(self).spec_slots(), Some(data)),
            r.spec_alloc().spec_slot() == spec_new_slot(old(self).spec_slots()),
            reaches(final(self).spec_slots(), r.spec_alloc().spec_slot(), r.spec_alloc().spec_generation()),
            final(self).spec_slots()[r.spec_alloc().spec_slot()] == (SlotView { data: Some(data), count: 1, generation: r.spec_alloc().spec_generation() }),
    {
        let alloc = self.take_slot(Some(data));
        Resource { alloc, has_data: true, marker: PhantomData }
    }

    /// A resource that owns no value; handles to it are never valid.
    fn create_null(&mut self) -> (r: Resource<T>)
        requires
            old(self).wf(),
        ensures
            final(self).wf(),
            !r.spec_has_data(),
            final(self).spec_slots() == after_create(old(self).spec_slots(), None),
            r.spec_alloc().spec_slot() == spec_new_slot(old(self).spec_slots()),
            tracks(final(self).spec_slots(), r.spec_alloc().spec_slot(), r.spec_alloc().spec_generation()),
            !reaches(final(self).spec_slots(), r.spec_alloc().spec_slot(), r.spec_alloc().spec_generation()),
    {
        let alloc = self.take_slot(None);
        Resource { alloc, has_data: false, marker: PhantomData }
    }

    /// A handle that is never valid.
    fn null_handle(&mut self) -> (r: ResourceHandle<T>)
        requires
            old(self).wf(),
        ensures
            final(self).wf(),
            final(self).spec_slots() == after_create(old(self).spec_slots(), None),
            tracks(final(self).spec_slots(), r.spec_alloc().spec_slot(), r.spec_alloc().spec_generation()),
            !reaches(final(self).spec_slots(), r.spec_alloc().spec_slot(), r.spec_alloc().spec_generation()),
    {
        let alloc = self.take_slot(None);
        ResourceHandle { alloc, marker: PhantomData }
    }

    fn share(&mut self, alloc: &ResourceAlloc) -> (r: ResourceAlloc)
        requires
            old(self).wf(),
            tracks(old(self).spec_slots(), alloc.spec_slot(), alloc.spec_generation()),
            old(self).spec_slots()[alloc.spec_slot()].count < usize::MAX,
        ensures
            final(self).wf(),
            final(self).spec_slots() == after_share(old(self).spec_slots(), alloc.spec_slot()),
            r == *alloc,
    {
        let ghost s = self.spec_slots();
        let i = alloc.slot;
        let count = self.slots[i].count + 1;
        self.slots[i].count = count;
        assert(self.spec_slots() =~= after_share(s, i as int));
        ResourceAlloc { slot: alloc.slot, generation: alloc.generation }
    }

    fn release(&mut self, alloc: &ResourceAlloc)
        requires
            old(self).wf(),
        ensures
            final(self).wf(),
            final(self).spec_slots() == after_release(old(self).spec_slots(), alloc.spec_slot(), alloc.spec_generation()),
    {
        let ghost s = self.spec_slots();
        if !self.is_tracked(alloc) {
            return;
        }
        let i = alloc.slot;
        if self.slots[i].count == 1 {
            let generation = self.slots[i].generation + 1;
            self.slots[i].data = None;
            self.slots[i].count = 0;
            self.slots[i].generation = generation;
        } else {
            let count = self.slots[i].count - 1;
            self.slots[i].count = count;
        }
        assert(self.spec_slots() =~= after_release(s, i as int, alloc.generation));
    }

    /// A handle to the value of `resource`; the resource must own a value.
    fn handle(&mut self, resource: &Resource<T>) -> (r: ResourceHandle<T>)
        requires
            old(self).wf(),
            resource.spec_has_data(),
            tracks(old(self).spec_slots(), resource.spec_alloc().spec_slot(), resource.spec_alloc().spec_generation()),
            old(self).spec_slots()[resource.spec_alloc().spec_slot()].count < usize::MAX,
        ensures
            final(self).wf(),
            final(self).spec_slots() == after_share(old(self).spec_slots(), resource.spec_alloc().spec_slot()),
            r.spec_alloc() == resource.spec_alloc(),
    {
        let alloc = self.share(&resource.alloc);
        ResourceHandle { alloc, marker: PhantomData }
    }

    /// A handle through which the value of `resource` can be changed; the resource must own a
    /// value.
    fn handle_mut(&mut self, resource: &Resource<T>) -> (r: ResourceHandleMut<T>)
        requires
            old(self).wf(),
            resource.spec_has_data(),
            tracks(old(self).spec_slots(), resource.spec_alloc().spec_slot(), resource.spec_alloc().spec_generation()),
            old(self).spec_slots()[resource.spec_alloc().spec_slot()].count < usize::MAX,
        ensures
            final(self).wf(),
            final(self).spec_slots() == after_share(old(self).spec_slots(), resource.spec_alloc().spec_slot()),
            r.spec_alloc() == resource.spec_alloc(),
    {
        let alloc = self.share(&resource.alloc);
        ResourceHandleMut { alloc, marker: PhantomData }
    }

    /// A read-only handle to the same value as `handle`.
    fn as_ref(&mut self, handle: &ResourceHandleMut<T>) -> (r: ResourceHandle<T>)
        requires
            old(self).wf(),
            tracks(old(self).spec_slots(), handle.spec_alloc().spec_slot(), handle.spec_alloc().spec_generation()),
            old(self).spec_slots()[handle.spec_alloc().spec_slot()].count < usize::MAX,
        ensures
            final(self).wf(),
            final(self).spec_slots() == after_share(old(self).spec_slots(), handle.spec_alloc().spec_slot()),
            r.spec_alloc() == handle.spec_alloc(),
    {
        let alloc = self.share(&handle.alloc);
        ResourceHandle { alloc, marker: PhantomData }
    }

    /// Another handle to the same value as `handle`.
    fn clone_handle(&mut self, handle: &ResourceHandle<T>) -> (r: ResourceHandle<T>)
        requires
            old(self).wf(),
            tracks(old(self).spec_slots(), handle.spec_alloc().spec_slot(), handle.spec_alloc().spec_generation()),
            old(self).spec_slots()[handle.spec_alloc().spec_slot()].count < usize::MAX,
        ensures
            final(self).wf(),
            final(self).spec_slots() == after_share(old(self).spec_slots(), handle.spec_alloc().spec_slot()),
            r.spec_alloc() == handle.spec_alloc(),
    {
        let alloc = self.share(&handle.alloc);
        ResourceHandle { alloc, marker: PhantomData }
    }

    /// Whether `handle` still reaches a value: false once the owner has gone.
    pub fn is_handle_valid(&self, handle: &ResourceHandle<T>) -> (r: bool)
        ensures
            r == reaches(self.spec_slots(), handle.spec_alloc().spec_slot(), handle.spec_alloc().spec_generation()),
    {
        self.is_tracked(&handle.alloc) && self.slots[handle.alloc.slot].data.is_some()
    }

    /// Whether `handle` still reaches a value: false once the owner has gone.
    pub fn is_handle_mut_valid(&self, handle: &ResourceHandleMut<T>) -> (r: bool)
        ensures
            r == reaches(self.spec_slots(), handle.spec_alloc().spec_slot(), handle.spec_alloc().spec_generation()),
    {
        self.is_tracked(&handle.alloc) && self.slots[handle.alloc.slot].data.is_some()
    }

    /// The value `handle` reaches.
    pub fn get(&self, handle: &ResourceHandle<T>) -> (r: &T)
        requires
            reaches(self.spec_slots(), handle.spec_alloc().spec_slot(), handle.spec_alloc().spec_generation()),
        ensures
            Some(*r) == self.spec_slots()[handle.spec_alloc().spec_slot()].data,
    {
        self.slots[handle.alloc.slot].data.as_ref().unwrap()
    }

    /// The value `resource` owns.
    pub fn get_owned(&self, resource: &Resource<T>) -> (r: &T)
        requires
            reaches(self.spec_slots(), resource.spec_alloc().spec_slot(), resource.spec_alloc().spec_generation()),
        ensures
            Some(*r) == self.spec_slots()[resource.spec_alloc().spec_slot()].data,
    {
        self.slots[resource.alloc.slot].data.as_ref().unwrap()
    }

    /// The value `handle` reaches, to be changed in place.
    pub fn get_mut(&mut self, handle: &ResourceHandleMut<T>) -> (r: &mut T)
        requires
            reaches(old(self).spec_slots(), handle.spec_alloc().spec_slot(), handle.spec_alloc().spec_generation()),
        ensures
            Some(*r) == old(self).spec_slots()[handle.spec_alloc().spec_slot()].data,
            final(self).spec_slots() == old(self).spec_slots().update(
                handle.spec_alloc().spec_slot(),
                SlotView {
                    data: Some(*final(r)),
                    count: old(self).spec_slots()[handle.spec_alloc().spec_slot()].count,
                    generation: old(self).spec_slots()[handle.spec_alloc().spec_slot()].generation,
                },
            ),
    {
        let ghost s = self.spec_slots();
        let i = handle.alloc.slot;
        let slot = &mut self.slots[i];
        let value = slot.data.as_mut().unwrap();
        value
    }

    /// The value `resource` owns, to be changed in place.
    pub fn get_owned_mut(&mut self, resource: &Resource<T>) -> (r: &mut T)
        requires
            reaches(old(self).spec_slots(), resource.spec_alloc().spec_slot(), resource.spec_alloc().spec_generation()),
        ensures
            Some(*r) == old(self).spec_slots()[resource.spec_alloc().spec_slot()].data,
            final(self).spec_slots() == old(self).spec_slots().update(
                resource.spec_alloc().spec_slot(),
                SlotView {
                    data: Some(*final(r)),
                    count: old(self).spec_slots()[resource.spec_alloc().spec_slot()].count,
                    generation: old(self).spec_slots()[resource.spec_alloc().spec_slot()].generation,
                },
            ),
    {
        let slot = &mut self.slots[resource.alloc.slot];
        let value = slot.data.as_mut().unwrap();
        value
    }

    /// Replaces the value `handle` reaches and returns the previous one.
    pub fn replace(&mut self, handle: &ResourceHandleMut<T>, value: T) -> (r: T)
        requires
            old(self).wf(),
            reaches(old(self).spec_slots(), handle.spec_alloc().spec_slot(), handle.spec_alloc().spec_generation()),
        ensures
            final(self).wf(),
            Some(r) == old(self).spec_slots()[handle.spec_alloc().spec_slot()].data,
            final(self).spec_slots() == old(self).spec_slots().update(
                handle.spec_alloc().spec_slot(),
                SlotView {
                    data: Some(value),
                    count: old(self).spec_slots()[handle.spec_alloc().spec_slot()].count,
                    generation: old(self).spec_slots()[handle.spec_alloc().spec_slot()].generation,
                },
            ),
    {
        let ghost s = self.spec_slots();
        let i = handle.alloc.slot;
        let previous = self.slots[i].data.take();
        self.slots[i].data = Some(value);
        assert(self.spec_slots() =~= s.update(
            i as int,
            SlotView { data: Some(value), count: s[i as int].count, generation: s[i as int].generation },
        ));
        previous.unwrap()
    }

    /// Lets go of `handle`; the last reference to a slot frees it.
    pub fn release_handle(&mut self, handle: ResourceHandle<T>)
        requires
            old(self).wf(),
        ensures
            final(self).wf(),
            final(self).spec_slots() == after_release(old(self).spec_slots(), handle.spec_alloc().spec_slot(), handle.spec_alloc().spec_generation()),
    {
        self.release(&handle.alloc);
    }

    /// Lets go of `handle`; the last reference to a slot frees it.
    pub fn release_handle_mut(&mut self, handle: ResourceHandleMut<T>)
        requires
            old(self).wf(),
        ensures
            final(self).wf(),
            final(self).spec_slots() == after_release(old(self).spec_slots(), handle.spec_alloc().spec_slot(), handle.spec_alloc().spec_generation()),
    {
        self.release(&handle.alloc);
    }

    /// Destroys `resource`: its value is dropped, so every handle to it stops reaching it, and
    /// its reference goes away.
    pub fn destroy(&mut self, resource: Resource<T>)
        requires
            old(self).wf(),
        ensures
            final(self).wf(),
            final(self).spec_slots() == after_destroy(old(self).spec_slots(), resource.spec_alloc().spec_slot(), resource.spec_alloc().spec_generation()),
    {
        let ghost s = self.spec_slots();
        if !self.is_tracked(&resource.alloc) {
            return;
        }
        let i = resource.alloc.slot;
        self.slots[i].data = None;
        let ghost s1 = s.update(i as int, SlotView { data: None, count: s[i as int].count, generation: s[i as int].generation });
        assert(self.spec_slots() =~= s1);
        self.release(&resource.alloc);
    }
}

proof fn lemma_first_free_prefix<T>(s: Seq<SlotView<T>>, n: int)
    requires
        0 < n <= s.len(),
        spec_first_free(s.take(n - 1)) is None,
        s[n - 1].count == 0 && s[n - 1].generation < u64::MAX,
    ensures
        spec_first_free(s) == Some(n - 1),
    decreases s.len(),
{
    assert(s.take(n).drop_last() =~= s.take(n - 1));
    if n < s.len() {
        assert(s.drop_last().take(n) =~= s.take(n));
        assert(s.drop_last().take(n - 1) =~= s.take(n - 1));
        lemma_first_free_prefix(s.drop_last(), n);
    } else {
        assert(s.take(n - 1) =~= s.drop_last());
    }
}

proof fn lemma_first_free_is_free<T>(s: Seq<SlotView<T>>)
    ensures
        spec_first_free(s) matches Some(i) ==> (0 <= i < s.len() && s[i].count == 0 && s[i].generation < u64::MAX),
    decreases s.len(),
{
    if s.len() > 0 {
        lemma_first_free_is_free(s.drop_last());
    }
}

/// A reference to `slot` in use `generation` was handed out at some time: the slot was freed
/// since, or is still in that use.
pub open spec fn issued<T>(s: Seq<SlotView<T>>, slot: int, generation: u64) -> bool {
    &&& 0 <= slot < s.len()
    &&& (generation < s[slot].generation || (generation == s[slot].generation && s[slot].count > 0))
}

/// One more reference and then one less leaves the slots as they were.
pub proof fn lemma_share_then_release<T>(s: Seq<SlotView<T>>, slot: int, generation: u64)
    requires
        tracks(s, slot, generation),
    ensures
        after_release(after_share(s, slot), slot, generation) == s,
{
    assert(after_release(after_share(s, slot), slot, generation) =~= s);
}

/// While its owner lives, a handle reaches the value, whatever other handles come and go.
pub proof fn lemma_handle_reaches_while_owner_lives<T>(s: Seq<SlotView<T>>, slot: int, generation: u64)
    requires
        reaches(s, slot, generation),
    ensures
        reaches(after_share(s, slot), slot, generation),
        s[slot].count > 1 ==> reaches(after_release(s, slot, generation), slot, generation),
{
}

/// Once the owner is destroyed, no reference to its slot reaches a value.
pub proof fn lemma_destroy_invalidates<T>(s: Seq<SlotView<T>>, slot: int, generation: u64)
    requires
        tracks(s, slot, generation),
    ensures
        !reaches(after_destroy(s, slot, generation), slot, generation),
{
}

/// The last reference to go frees the slot: its value is dropped and the slot's use ends, so
/// that a later use of the slot is told apart from this one.
pub proof fn lemma_last_reference_frees<T>(s: Seq<SlotView<T>>, slot: int, generation: u64)
    requires
        slots_wf(s),
        tracks(s, slot, generation),
    ensures
        (after_release(s, slot, generation)[slot].count == 0) <==> (s[slot].count == 1),
        s[slot].count == 1 ==> after_release(s, slot, generation)[slot].data is None
            && after_release(s, slot, generation)[slot].generation == s[slot].generation + 1,
        !tracks(after_release(s, slot, generation), slot, generation) <==> (s[slot].count == 1),
{
    assert(s[slot].count > 0);
}

/// A new resource takes a slot that no live reference designates.
pub proof fn lemma_create_takes_free_slot<T>(s: Seq<SlotView<T>>, data: Option<T>, slot: int, generation: u64)
    requires
        tracks(s, slot, generation),
    ensures
        spec_new_slot(s) != slot,
        after_create(s, data)[slot] == s[slot],
{
    lemma_first_free_is_free(s);
}

/// A reference that was handed out and no longer reaches a value never reaches one again,
/// whatever the pool does next: the slot's value is gone for good, or the slot moved on to
/// another use.
pub proof fn lemma_invalid_stays_invalid<T>(
    s: Seq<SlotView<T>>,
    slot: int,
    generation: u64,
    data: Option<T>,
    other: int,
    other_generation: u64,
)
    requires
        slots_wf(s),
        issued(s, slot, generation),
        !reaches(s, slot, generation),
    ensures
        issued(after_create(s, data), slot, generation) && !reaches(after_create(s, data), slot, generation),
        tracks(s, other, other_generation) ==> (issued(after_share(s, other), slot, generation)
            && !reaches(after_share(s, other), slot, generation)),
        issued(after_release(s, other, other_generation), slot, generation) && !reaches(
            after_release(s, other, other_generation),
            slot,
            generation,
        ),
        issued(after_destroy(s, other, other_generation), slot, generation) && !reaches(
            after_destroy(s, other, other_generation),
            slot,
            generation,
        ),
{
    lemma_first_free_is_free(s);
    if s[slot].count > 0 {
        assert(s[slot].generation < u64::MAX);
    }
}

} // verus!
