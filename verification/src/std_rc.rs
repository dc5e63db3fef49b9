//! The reference pointer adapter: the standard shared pointer,
//! wrapped so that it satisfies the same capability contract as the
//! custom pointer and can be swapped into identical workload code.
//!
//! The standard pointer keeps its own count inside its allocation, so
//! the backing store here carries no run-time state at all: it is
//! ghost bookkeeping that mirrors, block by block, what the standard
//! pointer's documented clone/drop semantics do — which is exactly
//! what the contract requires an implementation to exhibit.
use vstd::prelude::*;
use std::rc::Rc;
use crate::entity::Entity;
use crate::rc_like::RcLike;
use crate::rc_model::{HeapModel, model_after_construct, model_after_clone, model_after_destroy};

verus! {

/// The adapter's backing store: a ghost model of the blocks the
/// standard pointer has allocated, and a ghost supply of fresh block
/// identifiers.
pub struct StdRcStore {
    model: Ghost<HeapModel<Entity>>,
    next_id: Ghost<nat>,
    clones: Ghost<nat>,
    destroys: Ghost<nat>,
}

/// A handle over the standard shared pointer: the pointer itself,
/// plus the ghost identifier of the block it designates.
pub struct StdRcWrapper {
    rc: Rc<Entity>,
    id: Ghost<int>,
}

/// Relies on std's `Rc::clone`: the returned pointer designates the
/// same allocation as the argument, so it dereferences to the same
/// value; the pointee is not copied or touched.
#[verifier::external_body]
fn clone_rc_ptr(rc: &Rc<Entity>) -> (r: Rc<Entity>)
    ensures
        r == *rc,
{
    Rc::clone(rc)
}

impl StdRcWrapper {
    /// The ghost identifier of the block this handle designates.
    pub closed spec fn spec_id(self) -> int {
        self.id@
    }

    /// The pointee of the wrapped standard pointer.
    pub closed spec fn pointee(self) -> Entity {
        *self.rc
    }
}

impl StdRcStore {
    /// The ghost model of the adapter's store.
    pub closed spec fn model(self) -> HeapModel<Entity> {
        self.model@
    }

    /// How many blocks this store has ever allocated: every block
    /// identifier came from the fresh-id supply, which only grows.
    pub closed spec fn blocks_allocated(self) -> nat {
        self.next_id@
    }

    /// How many handle clones have been performed on this store.
    pub closed spec fn clones_performed(self) -> nat {
        self.clones@
    }

    /// How many handle destroys have been performed on this store.
    pub closed spec fn destroys_performed(self) -> nat {
        self.destroys@
    }

    /// Every allocated block's identifier came from the fresh-id
    /// supply.
    pub closed spec fn inv(self) -> bool {
        forall|i: int| self.model@.dom().contains(i) ==> i < self.next_id@
    }
}

impl RcLike<StdRcStore> for StdRcWrapper {
    open spec fn store_model(s: StdRcStore) -> HeapModel<Entity> {
        s.model()
    }

    open spec fn store_inv(s: StdRcStore) -> bool {
        s.inv()
    }

    open spec fn blocks_allocated(s: StdRcStore) -> nat {
        s.blocks_allocated()
    }

    open spec fn clones_performed(s: StdRcStore) -> nat {
        s.clones_performed()
    }

    open spec fn destroys_performed(s: StdRcStore) -> nat {
        s.destroys_performed()
    }

    open spec fn id(self) -> int {
        self.spec_id()
    }

    open spec fn valid(self, s: StdRcStore) -> bool {
        &&& s.model().dom().contains(self.spec_id())
        &&& s.model()[self.spec_id()].1 == self.pointee()
    }

    proof fn lemma_valid_allocated(self, s: StdRcStore) {
    }

    proof fn lemma_valid_preserved(self, s1: StdRcStore, s2: StdRcStore) {
    }

    fn new_store() -> (s: StdRcStore) {
        StdRcStore {
            model: Ghost(Map::empty()),
            next_id: Ghost(0nat),
            clones: Ghost(0nat),
            destroys: Ghost(0nat),
        }
    }

    fn construct(s: &mut StdRcStore, value: Entity) -> (h: StdRcWrapper) {
        let ghost id = s.next_id@ as int;
        let rc = Rc::new(value);
        s.model = Ghost(model_after_construct(s.model@, id, value));
        s.next_id = Ghost((s.next_id@ + 1) as nat);
        StdRcWrapper { rc, id: Ghost(id) }
    }

    fn clone_handle(&self, s: &mut StdRcStore) -> (c: StdRcWrapper) {
        let rc = clone_rc_ptr(&self.rc);
        s.model = Ghost(model_after_clone(s.model@, self.id@));
        s.clones = Ghost((s.clones@ + 1) as nat);
        StdRcWrapper { rc, id: Ghost(self.id@) }
    }

    fn read(&self, s: &StdRcStore) -> (value: Entity) {
        *self.rc
    }

    fn destroy(self, s: &mut StdRcStore) {
        s.model = Ghost(model_after_destroy(s.model@, self.id@));
        s.destroys = Ghost((s.destroys@ + 1) as nat);
    }
}

} // verus!
