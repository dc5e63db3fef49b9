//! The custom reference-counted pointer: a storage heap of blocks,
//! each holding a value next to an explicit, non-atomic count of the
//! live handles that designate it, and the handle type whose
//! construct/clone/destroy protocol keeps that count exact.
//!
//! Every operation's `ensures` pins the heap's new model to the
//! corresponding transition of `rc_model`, so the laws proved there
//! (count conservation, single deallocation, clone transparency, no
//! use-after-free) govern this executable code.
//!
//! A handle is deliberately neither `Clone` nor `Copy`: new handles
//! arise only through [`CustomRc::new`] and [`CustomRc::clone_rc`],
//! and [`CustomRc::drop_rc`] consumes the handle it retires, so each
//! handle is destroyed at most once. The count bookkeeping takes no
//! lock and no atomic operation: the heap is meant for one thread,
//! and every count mutation goes through a `&mut` borrow of the
//! whole heap, so no two mutations can ever interleave.
use vstd::prelude::*;
use vstd::pervasive::VecAdditionalExecFns;
use core::marker::PhantomData;
use crate::entity::Entity;
use crate::rc_like::RcLike;
use crate::rc_model::{HeapModel, model_after_construct, model_after_clone, model_after_destroy};

verus! {

/// The storage heap: block `i` is allocated while `slots[i]` holds a
/// value, and `counts[i]` is then the number of live handles that
/// designate it. A deallocated block's slot is `None` and its count 0.
pub struct RcHeap<T> {
    counts: Vec<usize>,
    slots: Vec<Option<T>>,
    clones: Ghost<nat>,
    destroys: Ghost<nat>,
}

/// A handle designating shared ownership of one storage block of an
/// [`RcHeap`].
pub struct CustomRc<T> {
    idx: usize,
    marker: PhantomData<T>,
}

impl<T> CustomRc<T> {
    /// The identifier of the block this handle designates.
    pub closed spec fn id(self) -> int {
        self.idx as int
    }

    /// The identifier of the designated block, as a machine integer.
    pub fn block_index(&self) -> (i: usize)
        ensures
            i as int == self.id(),
    {
        self.idx
    }
}

impl<T> RcHeap<T> {
    /// The heap's model: each allocated block's identifier, mapped to
    /// its live-handle count and stored value.
    pub closed spec fn model(self) -> HeapModel<T> {
        Map::new(
            |i: int| 0 <= i < self.slots@.len() && self.slots@[i] is Some,
            |i: int| (self.counts@[i] as nat, self.slots@[i].unwrap()),
        )
    }

    /// How many blocks this heap has ever allocated. A deallocated
    /// block's slot stays behind as `None`, so this never shrinks.
    pub closed spec fn blocks_allocated(self) -> nat {
        self.slots@.len()
    }

    /// How many handle clones have been performed on this heap.
    pub closed spec fn clones_performed(self) -> nat {
        self.clones@
    }

    /// How many handle destroys have been performed on this heap.
    pub closed spec fn destroys_performed(self) -> nat {
        self.destroys@
    }

    /// Internal shape of the heap: one count per slot, at least 1
    /// while the slot is allocated.
    pub closed spec fn wf(self) -> bool {
        &&& self.counts@.len() == self.slots@.len()
        &&& forall|i: int| 0 <= i < self.slots@.len() && self.slots@[i] is Some
            ==> #[trigger] self.counts@[i] >= 1
    }

    /// While a block is allocated, its live-handle count is at least
    /// 1: the count is never observed as 0 while a handle may still
    /// designate the block.
    pub proof fn lemma_allocated_count_positive(self, id: int)
        requires
            self.wf(),
            self.model().dom().contains(id),
        ensures
            self.model()[id].0 >= 1,
    {
    }

    /// An empty heap: no block allocated yet.
    pub fn new() -> (heap: RcHeap<T>)
        ensures
            heap.wf(),
            heap.model() == Map::<int, (nat, T)>::empty(),
            heap.blocks_allocated() == 0,
            heap.clones_performed() == 0,
            heap.destroys_performed() == 0,
    {
        let heap = RcHeap {
            counts: Vec::new(),
            slots: Vec::new(),
            clones: Ghost(0nat),
            destroys: Ghost(0nat),
        };
        proof {
            assert(heap.model() =~= Map::<int, (nat, T)>::empty());
        }
        heap
    }

    /// Whether block `idx` is currently allocated.
    pub fn is_allocated(&self, idx: usize) -> (alive: bool)
        ensures
            alive == self.model().dom().contains(idx as int),
    {
        idx < self.slots.len() && self.slots[idx].is_some()
    }

    /// The live-handle count of an allocated block.
    pub fn count_at(&self, idx: usize) -> (count: usize)
        requires
            self.wf(),
            self.model().dom().contains(idx as int),
        ensures
            count as nat == self.model()[idx as int].0,
    {
        self.counts[idx]
    }
}

impl<T> CustomRc<T> {
    /// Constructs the first handle of a fresh block: the heap gains a
    /// block holding `value` with a live-handle count of 1.
    pub fn new(heap: &mut RcHeap<T>, value: T) -> (h: CustomRc<T>)
        requires
            old(heap).wf(),
        ensures
            final(heap).wf(),
            h.id() == old(heap).blocks_allocated(),
            !old(heap).model().dom().contains(h.id()),
            final(heap).model() == model_after_construct(old(heap).model(), h.id(), value),
            final(heap).blocks_allocated() == old(heap).blocks_allocated() + 1,
            final(heap).clones_performed() == old(heap).clones_performed(),
            final(heap).destroys_performed() == old(heap).destroys_performed(),
    {
        let ghost v = value;
        let idx = heap.slots.len();
        heap.slots.push(Some(value));
        heap.counts.push(1);
        proof {
            assert(final(heap).model() =~= model_after_construct(
                old(heap).model(), idx as int, v));
        }
        CustomRc { idx, marker: PhantomData }
    }

    /// Clones this handle: the designated block's count rises by
    /// exactly 1, its value is untouched, and the new handle
    /// designates the identical block.
    pub fn clone_rc(&self, heap: &mut RcHeap<T>) -> (c: CustomRc<T>)
        requires
            old(heap).wf(),
            old(heap).model().dom().contains(self.id()),
            old(heap).model()[self.id()].0 < usize::MAX,
        ensures
            final(heap).wf(),
            c.id() == self.id(),
            final(heap).model() == model_after_clone(old(heap).model(), self.id()),
            final(heap).blocks_allocated() == old(heap).blocks_allocated(),
            final(heap).clones_performed() == old(heap).clones_performed() + 1,
            final(heap).destroys_performed() == old(heap).destroys_performed(),
    {
        let idx = self.idx;
        let count = heap.counts[idx];
        heap.counts.set(idx, count + 1);
        proof {
            heap.clones@ = heap.clones@ + 1;
        }
        proof {
            assert(final(heap).model() =~= model_after_clone(old(heap).model(), self.id()));
        }
        CustomRc { idx, marker: PhantomData }
    }

    /// Read access to the designated block's value.
    pub fn deref<'a>(&self, heap: &'a RcHeap<T>) -> (r: &'a T)
        requires
            heap.wf(),
            heap.model().dom().contains(self.id()),
        ensures
            *r == heap.model()[self.id()].1,
    {
        heap.slots[self.idx].as_ref().unwrap()
    }

    /// Destroys this handle: the designated block's count falls by
    /// exactly 1, and on the transition from 1 to 0 the block is
    /// deallocated and its value dropped. The handle is consumed, so
    /// no handle is ever destroyed twice.
    pub fn drop_rc(self, heap: &mut RcHeap<T>)
        requires
            old(heap).wf(),
            old(heap).model().dom().contains(self.id()),
        ensures
            final(heap).wf(),
            final(heap).model() == model_after_destroy(old(heap).model(), self.id()),
            final(heap).blocks_allocated() == old(heap).blocks_allocated(),
            final(heap).clones_performed() == old(heap).clones_performed(),
            final(heap).destroys_performed() == old(heap).destroys_performed() + 1,
    {
        proof {
            heap.destroys@ = heap.destroys@ + 1;
        }
        let idx = self.idx;
        let count = heap.counts[idx];
        if count == 1 {
            heap.counts.set(idx, 0);
            heap.slots.set(idx, None);
        } else {
            heap.counts.set(idx, count - 1);
        }
        proof {
            assert(final(heap).model() =~= model_after_destroy(old(heap).model(), self.id()));
        }
    }
}

impl RcLike<RcHeap<Entity>> for CustomRc<Entity> {
    open spec fn store_model(s: RcHeap<Entity>) -> HeapModel<Entity> {
        s.model()
    }

    open spec fn store_inv(s: RcHeap<Entity>) -> bool {
        s.wf()
    }

    open spec fn blocks_allocated(s: RcHeap<Entity>) -> nat {
        s.blocks_allocated()
    }

    open spec fn clones_performed(s: RcHeap<Entity>) -> nat {
        s.clones_performed()
    }

    open spec fn destroys_performed(s: RcHeap<Entity>) -> nat {
        s.destroys_performed()
    }

    open spec fn id(self) -> int {
        CustomRc::id(self)
    }

    open spec fn valid(self, s: RcHeap<Entity>) -> bool {
        s.model().dom().contains(CustomRc::id(self))
    }

    proof fn lemma_valid_allocated(self, s: RcHeap<Entity>) {
    }

    proof fn lemma_valid_preserved(self, s1: RcHeap<Entity>, s2: RcHeap<Entity>) {
    }

    fn new_store() -> (s: RcHeap<Entity>) {
        RcHeap::new()
    }

    fn construct(s: &mut RcHeap<Entity>, value: Entity) -> (h: CustomRc<Entity>) {
        CustomRc::new(s, value)
    }

    fn clone_handle(&self, s: &mut RcHeap<Entity>) -> (c: CustomRc<Entity>) {
        self.clone_rc(s)
    }

    fn read(&self, s: &RcHeap<Entity>) -> (value: Entity) {
        *self.deref(s)
    }

    fn destroy(self, s: &mut RcHeap<Entity>) {
        self.drop_rc(s)
    }
}

} // verus!
