//! The shared-pointer abstraction: the capability contract a pointer
//! type must satisfy to drive the workload. A conforming type is a
//! handle over some backing store `S`; it can be constructed from an
//! entity, cloned (the new handle shares the same storage block),
//! dereferenced (read access to the pointee) and destroyed (the
//! block's live-handle count falls, and the block is released when it
//! reaches 0).
//!
//! The contract is stated over the store's model, a
//! [`HeapModel`](crate::rc_model::HeapModel): every operation must
//! follow the corresponding transition of `rc_model`, so the laws
//! proved there hold of every conforming pointer type alike.
use vstd::prelude::*;
use crate::entity::Entity;
use crate::rc_model::{HeapModel, model_after_construct, model_after_clone, model_after_destroy};

verus! {

/// A reference-counted-pointer capability over a backing store `S`.
///
/// `Self` is the handle type. A handle designates one storage block
/// of the store, named by `id`; `valid` says the handle may be used
/// with the store (its block is allocated and holds the value the
/// handle sees); `store_inv` is the store's own invariant, which
/// every operation preserves.
pub trait RcLike<S>: Sized {
    /// The model of the backing store: allocated block identifiers,
    /// each mapped to its live-handle count and stored entity.
    spec fn store_model(s: S) -> HeapModel<Entity>;

    /// The store's internal invariant.
    spec fn store_inv(s: S) -> bool;

    /// How many blocks this store has ever allocated. It only grows,
    /// and only `construct` grows it, so a store with a different
    /// history cannot stand in for this one.
    spec fn blocks_allocated(s: S) -> nat;

    /// How many handle clones have been performed on this store.
    spec fn clones_performed(s: S) -> nat;

    /// How many handle destroys have been performed on this store.
    spec fn destroys_performed(s: S) -> nat;

    /// The identifier of the block this handle designates.
    spec fn id(self) -> int;

    /// The handle may be dereferenced against this store.
    spec fn valid(self, s: S) -> bool;

    /// A valid handle's block is allocated.
    proof fn lemma_valid_allocated(self, s: S)
        requires
            self.valid(s),
        ensures
            Self::store_model(s).dom().contains(self.id()),
    ;

    /// Validity of a handle depends only on its own block: while the
    /// block stays allocated with the same value, the handle stays
    /// valid, whatever happens to other blocks or to the count.
    proof fn lemma_valid_preserved(self, s1: S, s2: S)
        requires
            self.valid(s1),
            Self::store_model(s2).dom().contains(self.id()),
            Self::store_model(s2)[self.id()].1 == Self::store_model(s1)[self.id()].1,
        ensures
            self.valid(s2),
    ;

    /// A fresh, empty store: nothing allocated.
    fn new_store() -> (s: S)
        ensures
            Self::store_inv(s),
            Self::store_model(s) == Map::<int, (nat, Entity)>::empty(),
            Self::blocks_allocated(s) == 0,
            Self::clones_performed(s) == 0,
            Self::destroys_performed(s) == 0,
    ;

    /// Takes ownership of `value` and allocates backing storage for
    /// it: a fresh block appears with a live-handle count of 1, and
    /// the returned handle designates it. Block identifiers are
    /// handed out deterministically — the new block's identifier is
    /// the number of blocks allocated before it — so any two stores
    /// driven through the same operations designate the same blocks.
    fn construct(s: &mut S, value: Entity) -> (h: Self)
        requires
            Self::store_inv(*old(s)),
        ensures
            Self::store_inv(*final(s)),
            h.id() == Self::blocks_allocated(*old(s)),
            !Self::store_model(*old(s)).dom().contains(h.id()),
            Self::store_model(*final(s)) == model_after_construct(
                Self::store_model(*old(s)), h.id(), value),
            h.valid(*final(s)),
            Self::blocks_allocated(*final(s)) == Self::blocks_allocated(*old(s)) + 1,
            Self::clones_performed(*final(s)) == Self::clones_performed(*old(s)),
            Self::destroys_performed(*final(s)) == Self::destroys_performed(*old(s)),
    ;

    /// Returns a new handle designating the same block: the block's
    /// live-handle count rises by exactly 1 and the pointee is not
    /// touched.
    fn clone_handle(&self, s: &mut S) -> (c: Self)
        requires
            Self::store_inv(*old(s)),
            self.valid(*old(s)),
            Self::store_model(*old(s))[self.id()].0 < usize::MAX,
        ensures
            Self::store_inv(*final(s)),
            c.id() == self.id(),
            Self::store_model(*final(s)) == model_after_clone(
                Self::store_model(*old(s)), self.id()),
            c.valid(*final(s)),
            self.valid(*final(s)),
            Self::blocks_allocated(*final(s)) == Self::blocks_allocated(*old(s)),
            Self::clones_performed(*final(s)) == Self::clones_performed(*old(s)) + 1,
            Self::destroys_performed(*final(s)) == Self::destroys_performed(*old(s)),
    ;

    /// Dereferences the handle: the pointee, as the store's model
    /// records it.
    fn read(&self, s: &S) -> (value: Entity)
        requires
            Self::store_inv(*s),
            self.valid(*s),
        ensures
            value == Self::store_model(*s)[self.id()].1,
    ;

    /// Destroys this handle: the block's live-handle count falls by
    /// exactly 1, and on the transition from 1 to 0 the block is
    /// released. The handle is consumed.
    fn destroy(self, s: &mut S)
        requires
            Self::store_inv(*old(s)),
            self.valid(*old(s)),
        ensures
            Self::store_inv(*final(s)),
            Self::store_model(*final(s)) == model_after_destroy(
                Self::store_model(*old(s)), self.id()),
            Self::blocks_allocated(*final(s)) == Self::blocks_allocated(*old(s)),
            Self::clones_performed(*final(s)) == Self::clones_performed(*old(s)),
            Self::destroys_performed(*final(s)) == Self::destroys_performed(*old(s)) + 1,
    ;
}

/// Clone transparency at the abstraction level: any two live handles
/// that designate the same block dereference to the same stored
/// value, whichever was cloned from which — `read`'s contract pins
/// both to the block's one entry in the store model.
pub proof fn lemma_sibling_reads_equal<S, H: RcLike<S>>(s: S, a: H, b: H)
    requires
        a.valid(s),
        b.valid(s),
        a.id() == b.id(),
    ensures
        H::store_model(s)[a.id()].1 == H::store_model(s)[b.id()].1,
{
}

} // verus!
