//! The workload driver: generic over any pointer type satisfying the
//! shared-pointer capability contract. Setup populates a collection
//! of entity handles; the run phase repeatedly clones and
//! dereferences each handle, discarding the clone, for a fixed number
//! of frames and operations per frame; teardown destroys every
//! remaining handle, deallocating every block exactly once.
use vstd::prelude::*;
use crate::entity::Entity;
use crate::rc_like::RcLike;

verus! {

/// The identifiers of the blocks a sequence of handles designates.
pub open spec fn handle_ids<S, H: RcLike<S>>(hs: Seq<H>) -> Seq<int> {
    hs.map_values(|h: H| h.id())
}

/// The workload state for one pointer type: the backing store, the
/// collection of entity handles, the construction handles retained
/// until teardown, and the fixed frame/operation counts.
pub struct Game<S, H> {
    pub store: S,
    pub entities: Vec<H>,
    pub originals: Vec<H>,
    pub frames: usize,
    pub operations_per_frame: usize,
}

impl<S, H: RcLike<S>> Game<S, H> {
    /// The entity value block `k` is set up to hold.
    pub open spec fn entity_at(k: int) -> Entity {
        Entity { id: k as usize, x: 0, y: 0 }
    }

    /// The driver's invariant between phases: the store is sound, the
    /// collection holds one handle per entity in identifier order,
    /// each paired with its retained construction handle, every block
    /// carries a live-handle count of exactly 2 (construction handle
    /// plus collection handle), and no other block is allocated.
    pub open spec fn wf(self) -> bool {
        let n = self.entities@.len();
        let m = H::store_model(self.store);
        &&& H::store_inv(self.store)
        &&& self.originals@.len() == n
        &&& forall|k: int| 0 <= k < n ==> (#[trigger] self.entities@[k]).valid(self.store)
        &&& forall|k: int| 0 <= k < n ==> (#[trigger] self.originals@[k]).valid(self.store)
        &&& forall|k: int| 0 <= k < n
            ==> (#[trigger] self.originals@[k]).id() == self.entities@[k].id()
        &&& forall|j: int, k: int| 0 <= j < k < n
            ==> (#[trigger] self.entities@[j]).id() != (#[trigger] self.entities@[k]).id()
        &&& forall|k: int| 0 <= k < n
            ==> m[(#[trigger] self.entities@[k]).id()] == (2nat, Self::entity_at(k))
        &&& m.dom() == handle_ids::<S, H>(self.entities@).to_set()
    }

    /// A fresh driver: an empty store, no entities yet, and the given
    /// frame and operation counts.
    pub fn new(frames: usize, operations_per_frame: usize) -> (game: Game<S, H>)
        ensures
            game.wf(),
            game.entities@.len() == 0,
            game.frames == frames,
            game.operations_per_frame == operations_per_frame,
            H::blocks_allocated(game.store) == 0,
            H::clones_performed(game.store) == 0,
            H::destroys_performed(game.store) == 0,
    {
        let game = Game {
            store: H::new_store(),
            entities: Vec::new(),
            originals: Vec::new(),
            frames,
            operations_per_frame,
        };
        proof {
            assert(H::store_model(game.store).dom()
                =~= handle_ids::<S, H>(game.entities@).to_set());
        }
        game
    }

    /// Constructs `num_entities` entities with sequential identifiers
    /// starting at 0, each immediately wrapped and cloned into a
    /// handle stored in the collection, so each block's live-handle
    /// count is 2 after setup.
    pub fn setup(&mut self, num_entities: usize)
        requires
            old(self).wf(),
            old(self).entities@.len() == 0,
        ensures
            final(self).wf(),
            final(self).entities@.len() == num_entities,
            final(self).frames == old(self).frames,
            final(self).operations_per_frame == old(self).operations_per_frame,
            H::blocks_allocated(final(self).store)
                == H::blocks_allocated(old(self).store) + num_entities,
            H::clones_performed(final(self).store)
                == H::clones_performed(old(self).store) + num_entities,
            H::destroys_performed(final(self).store)
                == H::destroys_performed(old(self).store),
            forall|k: int| 0 <= k < num_entities
                ==> (#[trigger] final(self).entities@[k]).id()
                    == H::blocks_allocated(old(self).store) + k,
    {
        let mut k: usize = 0;
        while k < num_entities
            invariant
                self.wf(),
                self.entities@.len() == k,
                k <= num_entities,
                self.frames == old(self).frames,
                self.operations_per_frame == old(self).operations_per_frame,
                H::blocks_allocated(self.store)
                    == H::blocks_allocated(old(self).store) + k,
                H::clones_performed(self.store)
                    == H::clones_performed(old(self).store) + k,
                H::destroys_performed(self.store)
                    == H::destroys_performed(old(self).store),
                forall|j: int| 0 <= j < k
                    ==> (#[trigger] self.entities@[j]).id()
                        == H::blocks_allocated(old(self).store) + j,
            decreases num_entities - k,
        {
            let ghost s0 = self.store;
            let entity = Entity { id: k, x: 0, y: 0 };
            let h = H::construct(&mut self.store, entity);
            let c = h.clone_handle(&mut self.store);
            let ghost s2 = self.store;
            let ghost old_e = self.entities@;
            let ghost old_o = self.originals@;
            self.entities.push(c);
            self.originals.push(h);
            proof {
                let m0 = H::store_model(s0);
                let m2 = H::store_model(s2);
                let id = h.id();
                assert(m2 =~= m0.insert(id, (2nat, entity)));
                assert forall|j: int|
                    #![trigger self.entities@[j]]
                    #![trigger self.originals@[j]]
                    0 <= j < k implies
                    self.entities@[j].valid(s2)
                    && self.originals@[j].valid(s2)
                    && m0.dom().contains(self.entities@[j].id())
                    && m2[self.entities@[j].id()] == m0[self.entities@[j].id()] by {
                    assert(self.entities@[j] == old_e[j]);
                    assert(self.originals@[j] == old_o[j]);
                    old_e[j].lemma_valid_allocated(s0);
                    old_o[j].lemma_valid_allocated(s0);
                    old_e[j].lemma_valid_preserved(s0, s2);
                    old_o[j].lemma_valid_preserved(s0, s2);
                }
                assert(self.entities@[k as int] == c);
                assert(self.originals@[k as int] == h);
                let ids_new = handle_ids::<S, H>(self.entities@);
                let ids_old = handle_ids::<S, H>(old_e);
                assert forall|i: int| m2.dom().contains(i)
                    implies ids_new.to_set().contains(i) by {
                    if i == id {
                        assert(ids_new[k as int] == i);
                    } else {
                        assert(ids_old.to_set().contains(i));
                        let jj = choose|jj: int| 0 <= jj < ids_old.len() && ids_old[jj] == i;
                        assert(ids_new[jj] == i);
                    }
                }
                assert forall|i: int| ids_new.to_set().contains(i)
                    implies m2.dom().contains(i) by {
                    let jj = choose|jj: int| 0 <= jj < ids_new.len() && ids_new[jj] == i;
                    if jj < k as int {
                        assert(ids_old[jj] == i);
                        assert(ids_old.to_set().contains(i));
                    }
                }
                assert(m2.dom() =~= ids_new.to_set());
            }
            k = k + 1;
        }
    }

    /// One operation slot: visits every stored handle in order,
    /// clones it, dereferences the clone to read both coordinates,
    /// combines them through the optimization-blocking sink, then
    /// destroys the clone before the next handle is visited. Performs
    /// exactly one clone/destroy pair per entity — the clone and
    /// destroy counters each rise by the entity count — and leaves
    /// every block exactly as it was.
    pub fn run_pass(&mut self) -> (pairs: usize)
        requires
            old(self).wf(),
        ensures
            final(self).wf(),
            H::store_model(final(self).store) == H::store_model(old(self).store),
            final(self).entities@ == old(self).entities@,
            final(self).originals@ == old(self).originals@,
            final(self).frames == old(self).frames,
            final(self).operations_per_frame == old(self).operations_per_frame,
            pairs == old(self).entities@.len(),
            H::blocks_allocated(final(self).store) == H::blocks_allocated(old(self).store),
            H::clones_performed(final(self).store)
                == H::clones_performed(old(self).store) + pairs,
            H::destroys_performed(final(self).store)
                == H::destroys_performed(old(self).store) + pairs,
    {
        let ghost m_orig = H::store_model(old(self).store);
        let n = self.entities.len();
        let mut k: usize = 0;
        while k < n
            invariant
                self.wf(),
                n == self.entities@.len(),
                k <= n,
                H::store_model(self.store) == m_orig,
                self.entities@ == old(self).entities@,
                self.originals@ == old(self).originals@,
                self.frames == old(self).frames,
                self.operations_per_frame == old(self).operations_per_frame,
                H::blocks_allocated(self.store) == H::blocks_allocated(old(self).store),
                H::clones_performed(self.store)
                    == H::clones_performed(old(self).store) + k,
                H::destroys_performed(self.store)
                    == H::destroys_performed(old(self).store) + k,
            decreases n - k,
        {
            let ghost s_pre = self.store;
            let c = self.entities[k].clone_handle(&mut self.store);
            let value = c.read(&self.store);
            proof {
                assert(value == Self::entity_at(k as int));
            }
            let _ = opt_blocker(value.x + value.y);
            c.destroy(&mut self.store);
            let ghost s_post = self.store;
            proof {
                let m_pre = H::store_model(s_pre);
                let m_post = H::store_model(s_post);
                let id = self.entities@[k as int].id();
                self.entities@[k as int].lemma_valid_allocated(s_pre);
                assert(m_pre[id] == (2nat, Self::entity_at(k as int)));
                assert(m_post =~= m_pre);
                assert forall|j: int|
                    #![trigger self.entities@[j]]
                    #![trigger self.originals@[j]]
                    0 <= j < n implies
                    self.entities@[j].valid(s_post)
                    && self.originals@[j].valid(s_post) by {
                    self.entities@[j].lemma_valid_allocated(s_pre);
                    self.originals@[j].lemma_valid_allocated(s_pre);
                    self.entities@[j].lemma_valid_preserved(s_pre, s_post);
                    self.originals@[j].lemma_valid_preserved(s_pre, s_post);
                }
            }
            k = k + 1;
        }
        n
    }

    /// One frame: `operations_per_frame` passes over the collection.
    /// Performs exactly `operations_per_frame * entity count`
    /// clone/destroy pairs and leaves every block as it was.
    pub fn run_frame(&mut self) -> (pairs: u64)
        requires
            old(self).wf(),
            old(self).operations_per_frame * old(self).entities@.len() <= u64::MAX,
        ensures
            final(self).wf(),
            H::store_model(final(self).store) == H::store_model(old(self).store),
            final(self).entities@ == old(self).entities@,
            final(self).originals@ == old(self).originals@,
            final(self).frames == old(self).frames,
            final(self).operations_per_frame == old(self).operations_per_frame,
            pairs == old(self).operations_per_frame * old(self).entities@.len(),
            H::blocks_allocated(final(self).store) == H::blocks_allocated(old(self).store),
            H::clones_performed(final(self).store)
                == H::clones_performed(old(self).store) + pairs,
            H::destroys_performed(final(self).store)
                == H::destroys_performed(old(self).store) + pairs,
    {
        let ops = self.operations_per_frame;
        let ghost n = self.entities@.len() as int;
        let mut pairs: u64 = 0;
        let mut op: usize = 0;
        while op < ops
            invariant
                self.wf(),
                op <= ops,
                ops * n <= u64::MAX,
                n == self.entities@.len(),
                pairs == op * n,
                H::store_model(self.store) == H::store_model(old(self).store),
                self.entities@ == old(self).entities@,
                self.originals@ == old(self).originals@,
                self.frames == old(self).frames,
                self.operations_per_frame == old(self).operations_per_frame,
                H::blocks_allocated(self.store) == H::blocks_allocated(old(self).store),
                H::clones_performed(self.store)
                    == H::clones_performed(old(self).store) + pairs,
                H::destroys_performed(self.store)
                    == H::destroys_performed(old(self).store) + pairs,
            decreases ops - op,
        {
            proof {
                assert((op + 1) * n == op * n + n) by (nonlinear_arith);
                assert((op + 1) * n <= ops * n) by (nonlinear_arith)
                    requires op + 1 <= ops, n >= 0,;
            }
            let pass_pairs = self.run_pass();
            pairs = pairs + (pass_pairs as u64);
            op = op + 1;
        }
        pairs
    }

    /// The whole run phase: `frames` frames of
    /// `operations_per_frame` passes each. The total number of
    /// clone/destroy pairs performed is exactly
    /// `frames * operations_per_frame * entity count`, whatever
    /// pointer implementation drives it, and every block's count
    /// returns to its setup value.
    pub fn run(&mut self) -> (pairs: u64)
        requires
            old(self).wf(),
            old(self).frames * old(self).operations_per_frame * old(self).entities@.len()
                <= u64::MAX,
        ensures
            final(self).wf(),
            H::store_model(final(self).store) == H::store_model(old(self).store),
            final(self).entities@ == old(self).entities@,
            final(self).originals@ == old(self).originals@,
            final(self).frames == old(self).frames,
            final(self).operations_per_frame == old(self).operations_per_frame,
            pairs == old(self).frames * old(self).operations_per_frame
                * old(self).entities@.len(),
            H::blocks_allocated(final(self).store) == H::blocks_allocated(old(self).store),
            H::clones_performed(final(self).store)
                == H::clones_performed(old(self).store) + pairs,
            H::destroys_performed(final(self).store)
                == H::destroys_performed(old(self).store) + pairs,
    {
        let frames = self.frames;
        let ghost ops = self.operations_per_frame as int;
        let ghost n = self.entities@.len() as int;
        proof {
            assert(frames * ops * n == frames * (ops * n)) by (nonlinear_arith);
        }
        let mut pairs: u64 = 0;
        let mut frame: usize = 0;
        while frame < frames
            invariant
                self.wf(),
                frame <= frames,
                frames * (ops * n) <= u64::MAX,
                ops == self.operations_per_frame as int,
                n == self.entities@.len() as int,
                pairs == frame * (ops * n),
                H::store_model(self.store) == H::store_model(old(self).store),
                self.entities@ == old(self).entities@,
                self.originals@ == old(self).originals@,
                self.frames == old(self).frames,
                self.operations_per_frame == old(self).operations_per_frame,
                H::blocks_allocated(self.store) == H::blocks_allocated(old(self).store),
                H::clones_performed(self.store)
                    == H::clones_performed(old(self).store) + pairs,
                H::destroys_performed(self.store)
                    == H::destroys_performed(old(self).store) + pairs,
            decreases frames - frame,
        {
            proof {
                assert(ops * n >= 0) by (nonlinear_arith)
                    requires ops >= 0, n >= 0,;
                assert((frame + 1) * (ops * n) == frame * (ops * n) + ops * n)
                    by (nonlinear_arith);
                assert((frame + 1) * (ops * n) <= frames * (ops * n)) by (nonlinear_arith)
                    requires frame + 1 <= frames, ops * n >= 0,;
            }
            let frame_pairs = self.run_frame();
            pairs = pairs + frame_pairs;
            frame = frame + 1;
        }
        proof {
            assert(frames * (ops * n) == frames * ops * n) by (nonlinear_arith);
        }
        pairs
    }

    /// Final teardown: destroys every handle in the collection, which
    /// takes each block's count from 2 to 1, then destroys each
    /// retained construction handle — the last living handle of its
    /// block — which takes the count from 1 to 0 and deallocates the
    /// block. Afterwards nothing is allocated: every block was
    /// released exactly once.
    pub fn teardown(self) -> (s: S)
        requires
            self.wf(),
        ensures
            H::store_inv(s),
            H::store_model(s) == Map::<int, (nat, Entity)>::empty(),
            H::blocks_allocated(s) == H::blocks_allocated(self.store),
            H::clones_performed(s) == H::clones_performed(self.store),
            H::destroys_performed(s)
                == H::destroys_performed(self.store) + 2 * self.entities@.len(),
    {
        let ghost b0 = H::blocks_allocated(self.store);
        let ghost c0 = H::clones_performed(self.store);
        let ghost d0 = H::destroys_performed(self.store);
        let Game { mut store, mut entities, mut originals, frames: _, operations_per_frame: _ } =
            self;
        let ghost n = entities@.len() as int;
        let ghost e0 = entities@;
        let ghost o0 = originals@;
        while entities.len() > 0
            invariant
                H::store_inv(store),
                entities@ == e0.take(entities@.len() as int),
                entities@.len() <= n,
                originals@ == o0,
                e0.len() == n,
                o0.len() == n,
                forall|j: int, jj: int| 0 <= j < jj < n
                    ==> (#[trigger] e0[j]).id() != (#[trigger] e0[jj]).id(),
                forall|j: int| 0 <= j < n ==> (#[trigger] o0[j]).id() == e0[j].id(),
                forall|j: int| 0 <= j < entities@.len() as int
                    ==> #[trigger] H::store_model(store)[e0[j].id()]
                        == (2nat, Self::entity_at(j)),
                forall|j: int| entities@.len() as int <= j < n
                    ==> #[trigger] H::store_model(store)[e0[j].id()]
                        == (1nat, Self::entity_at(j)),
                forall|j: int| 0 <= j < entities@.len() as int
                    ==> (#[trigger] e0[j]).valid(store),
                forall|j: int| 0 <= j < n ==> (#[trigger] o0[j]).valid(store),
                H::store_model(store).dom() == handle_ids::<S, H>(e0).to_set(),
                H::blocks_allocated(store) == b0,
                H::clones_performed(store) == c0,
                H::destroys_performed(store) == d0 + (n - entities@.len()),
            decreases entities@.len(),
        {
            let ghost len = entities@.len() as int;
            let ghost s_pre = store;
            let h = entities.pop().unwrap();
            h.destroy(&mut store);
            proof {
                let ghost s_post = store;
                let m_pre = H::store_model(s_pre);
                let m_post = H::store_model(s_post);
                let id = e0[len - 1].id();
                assert(h == e0[len - 1]);
                assert(entities@ =~= e0.take(len - 1));
                e0[len - 1].lemma_valid_allocated(s_pre);
                assert(m_post =~= m_pre.insert(id, (1nat, Self::entity_at(len - 1))));
                assert forall|j: int|
                    #![trigger e0[j]]
                    #![trigger o0[j]]
                    0 <= j < n implies
                    o0[j].valid(s_post)
                    && (j < len - 1 ==> e0[j].valid(s_post)) by {
                    o0[j].lemma_valid_allocated(s_pre);
                    o0[j].lemma_valid_preserved(s_pre, s_post);
                    if j < len - 1 {
                        e0[j].lemma_valid_allocated(s_pre);
                        e0[j].lemma_valid_preserved(s_pre, s_post);
                    }
                }
            }
        }
        proof {
            assert(o0.take(n) =~= o0);
            assert(handle_ids::<S, H>(o0) =~= handle_ids::<S, H>(e0));
        }
        while originals.len() > 0
            invariant
                H::store_inv(store),
                originals@ == o0.take(originals@.len() as int),
                originals@.len() <= n,
                o0.len() == n,
                forall|j: int, jj: int| 0 <= j < jj < n
                    ==> (#[trigger] o0[j]).id() != (#[trigger] o0[jj]).id(),
                forall|j: int| 0 <= j < originals@.len() as int
                    ==> #[trigger] H::store_model(store)[o0[j].id()]
                        == (1nat, Self::entity_at(j)),
                forall|j: int| 0 <= j < originals@.len() as int
                    ==> (#[trigger] o0[j]).valid(store),
                H::store_model(store).dom()
                    == handle_ids::<S, H>(o0.take(originals@.len() as int)).to_set(),
                H::blocks_allocated(store) == b0,
                H::clones_performed(store) == c0,
                H::destroys_performed(store) == d0 + n + (n - originals@.len()),
            decreases originals@.len(),
        {
            let ghost len = originals@.len() as int;
            let ghost s_pre = store;
            let h = originals.pop().unwrap();
            h.destroy(&mut store);
            proof {
                let ghost s_post = store;
                let m_pre = H::store_model(s_pre);
                let m_post = H::store_model(s_post);
                let id = o0[len - 1].id();
                assert(h == o0[len - 1]);
                assert(originals@ =~= o0.take(len - 1));
                o0[len - 1].lemma_valid_allocated(s_pre);
                assert(m_post =~= m_pre.remove(id));
                assert forall|j: int| 0 <= j < len - 1 implies
                    (#[trigger] o0[j]).valid(s_post) by {
                    o0[j].lemma_valid_allocated(s_pre);
                    o0[j].lemma_valid_preserved(s_pre, s_post);
                }
                let ids_old = handle_ids::<S, H>(o0.take(len));
                let ids_new = handle_ids::<S, H>(o0.take(len - 1));
                assert forall|i: int| m_post.dom().contains(i)
                    implies ids_new.to_set().contains(i) by {
                    assert(ids_old.to_set().contains(i));
                    let jj = choose|jj: int| 0 <= jj < ids_old.len() && ids_old[jj] == i;
                    assert(jj != len - 1);
                    assert(ids_new[jj] == i);
                }
                assert forall|i: int| ids_new.to_set().contains(i)
                    implies m_post.dom().contains(i) by {
                    let jj = choose|jj: int| 0 <= jj < ids_new.len() && ids_new[jj] == i;
                    assert(ids_old[jj] == i);
                    assert(ids_old.to_set().contains(i));
                    assert(i != id);
                }
                assert(m_post.dom() =~= ids_new.to_set());
            }
        }
        proof {
            assert(H::store_model(store) =~= Map::<int, (nat, Entity)>::empty());
        }
        store
    }
}

/// Relies on std's `hint::black_box`: an identity function whose only
/// effect is to block the optimizer from seeing through its argument,
/// so the benchmarked read cannot be eliminated.
#[verifier::external_body]
fn opt_blocker(v: i64) -> (r: i64)
    ensures
        r == v,
{
    std::hint::black_box(v)
}

/// The coarse progress-report interval: every tenth of the total
/// frame count, with a minimum interval of one frame.
pub open spec fn progress_interval(frames: usize) -> int {
    if frames / 10 >= 1 {
        frames as int / 10
    } else {
        1
    }
}

/// Whether a progress notification is due at this frame: frames are
/// reported at the coarse interval of `progress_interval`.
pub fn should_report(frame: usize, frames: usize) -> (report: bool)
    ensures
        report == (frame as int % progress_interval(frames) == 0),
{
    let interval = if frames / 10 >= 1 { frames / 10 } else { 1 };
    frame % interval == 0
}

} // verus!
