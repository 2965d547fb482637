//! Generation-checked handles into the widget pool and the scene store.
//!
//! A handle is an index paired with a generation; the owning pool checks the
//! generation on dereference. `NONE` (index 0, generation 0) stands for the
//! absence of a target. Controls store handles to their children, never the
//! children themselves.

use vstd::prelude::*;

verus! {

/// Generation-checked index into a pooled collection; stands in for a direct
/// reference. Generation 0 never names a live node.
#[derive(Clone, Copy, Debug, PartialEq, Eq, Structural)]
pub struct Handle {
    pub index: u32,
    pub generation: u32,
}

impl Handle {
    /// The absent handle: no live node ever carries generation 0.
    pub fn none() -> (r: Handle)
        ensures
            r == Handle::none_spec(),
    {
        Handle { index: 0, generation: 0 }
    }

    pub open spec fn none_spec() -> Handle {
        Handle { index: 0, generation: 0 }
    }

    pub open spec fn is_none_spec(self) -> bool {
        self == Handle::none_spec()
    }

    /// A handle refers to a live node only if its generation is non-zero.
    pub fn is_none(&self) -> (r: bool)
        ensures
            r == self.is_none_spec(),
    {
        self.index == 0 && self.generation == 0
    }

    pub fn new(index: u32, generation: u32) -> (r: Handle)
        ensures
            r.index == index,
            r.generation == generation,
    {
        Handle { index, generation }
    }
}

} // verus!
