//! The game-entity record: a plain mutable value with an identifier
//! and two integer coordinates. It owns no resources; mutation is
//! local and never changes the identity.
use vstd::prelude::*;

verus! {

/// A plain data record referenced by the shared-ownership pointers.
///
/// The identifier is unique within a run (assigned sequentially at
/// creation) and never changes; the coordinates may be updated in
/// place.
#[derive(Clone, Copy, PartialEq, Eq, Structural, Debug)]
pub struct Entity {
    pub id: usize,
    pub x: i64,
    pub y: i64,
}

impl Entity {
    /// Moves the entity one step along each axis; the identity stays.
    pub fn update(&mut self)
        requires
            old(self).x < i64::MAX,
            old(self).y < i64::MAX,
        ensures
            final(self).x == old(self).x + 1,
            final(self).y == old(self).y + 1,
            final(self).id == old(self).id,
    {
        self.x = self.x + 1;
        self.y = self.y + 1;
    }
}

} // verus!
