//! Mathematical model of a reference-counted storage heap, and the
//! laws of its clone/destroy protocol.
//!
//! A heap is modelled as a map from block identifier to the pair
//! (live-handle count, stored value). The three transitions below
//! say exactly how constructing, cloning and destroying a handle
//! change the model; the executable heaps promise in their `ensures`
//! that they follow these transitions, so every lemma here governs
//! the executable code as well.
use vstd::prelude::*;

verus! {

/// The model of one heap: each allocated block's identifier, mapped
/// to its live-handle count and the value it stores.
pub type HeapModel<V> = Map<int, (nat, V)>;

/// One operation of a handle's life on a single block: a clone of a
/// live handle, or the destruction of one.
pub enum RcOp {
    CloneOp,
    DestroyOp,
}

/// How constructing a first handle changes the heap: a fresh block
/// appears with count 1.
pub open spec fn model_after_construct<V>(m: HeapModel<V>, id: int, value: V) -> HeapModel<V> {
    m.insert(id, (1nat, value))
}

/// How cloning a handle of block `id` changes the heap: that block's
/// count rises by exactly 1 and its value is untouched.
pub open spec fn model_after_clone<V>(m: HeapModel<V>, id: int) -> HeapModel<V> {
    m.insert(id, (m[id].0 + 1, m[id].1))
}

/// How destroying a handle of block `id` changes the heap: the count
/// falls by 1, and on the transition from 1 to 0 the block is
/// deallocated (it leaves the map).
pub open spec fn model_after_destroy<V>(m: HeapModel<V>, id: int) -> HeapModel<V> {
    if m[id].0 > 1 {
        m.insert(id, ((m[id].0 - 1) as nat, m[id].1))
    } else {
        m.remove(id)
    }
}

/// The heap after a whole sequence of clone/destroy operations on
/// block `id`.
pub open spec fn model_after_ops<V>(m: HeapModel<V>, id: int, ops: Seq<RcOp>) -> HeapModel<V>
    decreases ops.len(),
{
    if ops.len() == 0 {
        m
    } else {
        let next = match ops[0] {
            RcOp::CloneOp => model_after_clone(m, id),
            RcOp::DestroyOp => model_after_destroy(m, id),
        };
        model_after_ops(next, id, ops.drop_first())
    }
}

/// How many of the operations are clones.
pub open spec fn num_clones(ops: Seq<RcOp>) -> int
    decreases ops.len(),
{
    if ops.len() == 0 {
        0
    } else {
        (if ops[0] is CloneOp { 1int } else { 0int }) + num_clones(ops.drop_first())
    }
}

/// How many of the operations are destroys.
pub open spec fn num_destroys(ops: Seq<RcOp>) -> int
    decreases ops.len(),
{
    if ops.len() == 0 {
        0
    } else {
        (if ops[0] is DestroyOp { 1int } else { 0int }) + num_destroys(ops.drop_first())
    }
}

/// A sequence of operations on a block keeps the count positive
/// throughout: after every operation, the final one included, at
/// least one handle is still live. Only such sequences can arise
/// from live handles.
pub open spec fn ops_keep_block_live(init: nat, ops: Seq<RcOp>) -> bool
    decreases ops.len(),
{
    ops.len() == 0 || {
        let next = match ops[0] {
            RcOp::CloneOp => init + 1,
            RcOp::DestroyOp => (init - 1) as nat,
        };
        init >= 1 && next >= 1 && ops_keep_block_live(next, ops.drop_first())
    }
}

/// Count conservation: for any sequence of clone/destroy operations
/// on a block that starts with count `c` and keeps a handle live
/// throughout, the count after the sequence is exactly
/// `c + (number of clones) - (number of destroys)`, the block stays
/// allocated, its stored value never changes, and no other block is
/// touched.
pub proof fn lemma_count_conservation<V>(m: HeapModel<V>, id: int, ops: Seq<RcOp>)
    requires
        m.dom().contains(id),
        ops_keep_block_live(m[id].0, ops),
    ensures
        model_after_ops(m, id, ops).dom().contains(id),
        model_after_ops(m, id, ops)[id].0 == m[id].0 + num_clones(ops) - num_destroys(ops),
        model_after_ops(m, id, ops)[id].1 == m[id].1,
        forall|other: int| other != id ==> #[trigger] model_after_ops(m, id, ops)
            .dom().contains(other) == m.dom().contains(other),
        forall|other: int| other != id && m.dom().contains(other)
            ==> #[trigger] model_after_ops(m, id, ops)[other] == m[other],
    decreases ops.len(),
{
    if ops.len() > 0 {
        let next = match ops[0] {
            RcOp::CloneOp => model_after_clone(m, id),
            RcOp::DestroyOp => model_after_destroy(m, id),
        };
        lemma_count_conservation::<V>(next, id, ops.drop_first());
    }
}

/// A block that starts at count 1 ends at `1 + clones - destroys`:
/// the spec's form of count conservation for a freshly constructed
/// block.
pub proof fn lemma_count_conservation_from_fresh<V>(m: HeapModel<V>, id: int, ops: Seq<RcOp>)
    requires
        m.dom().contains(id),
        m[id].0 == 1,
        ops_keep_block_live(1nat, ops),
    ensures
        model_after_ops(m, id, ops)[id].0 == 1 + num_clones(ops) - num_destroys(ops),
    decreases ops.len(),
{
    lemma_count_conservation::<V>(m, id, ops);
}

/// Single deallocation: a destroy deallocates the block exactly when
/// it brings the count from 1 to 0, and deallocates nothing else; a
/// destroy that leaves the count at 1 or more leaves the block
/// allocated, value untouched. A deallocated block is gone from the
/// model, so no further operation on it is admitted: it cannot be
/// deallocated a second time.
pub proof fn lemma_single_deallocation<V>(m: HeapModel<V>, id: int)
    requires
        m.dom().contains(id),
        m[id].0 >= 1,
    ensures
        m[id].0 == 1 ==> !model_after_destroy(m, id).dom().contains(id),
        m[id].0 > 1 ==> model_after_destroy(m, id).dom().contains(id)
            && model_after_destroy(m, id)[id] == ((m[id].0 - 1) as nat, m[id].1),
        forall|other: int| other != id ==> #[trigger] model_after_destroy(m, id)
            .dom().contains(other) == m.dom().contains(other),
        forall|other: int| other != id && m.dom().contains(other)
            ==> #[trigger] model_after_destroy(m, id)[other] == m[other],
{
}

/// Clone transparency: a clone designates the same block as the
/// handle it was cloned from, so after the clone both dereference to
/// the same stored value, which the clone did not change.
pub proof fn lemma_clone_transparency<V>(m: HeapModel<V>, id: int)
    requires
        m.dom().contains(id),
    ensures
        model_after_clone(m, id).dom().contains(id),
        model_after_clone(m, id)[id].1 == m[id].1,
        forall|other: int| other != id && m.dom().contains(other)
            ==> #[trigger] model_after_clone(m, id)[other] == m[other],
{
}

/// No use-after-free: as long as a handle of block `id` has not been
/// destroyed, the count stays at least 1 (one per live handle), so
/// destroying any number of sibling handles — each destroy observing
/// a count of at least 2 — leaves the block allocated with its value
/// intact, and destroying handles of other blocks never touches it.
pub proof fn lemma_no_use_after_free<V>(m: HeapModel<V>, id: int, destroyed: int)
    requires
        m.dom().contains(id),
        m.dom().contains(destroyed),
        destroyed == id ==> m[id].0 >= 2,
    ensures
        model_after_destroy(m, destroyed).dom().contains(id),
        model_after_destroy(m, destroyed)[id].1 == m[id].1,
{
}

} // verus!
