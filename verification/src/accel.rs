//! Handles to built bottom-level acceleration structures.
//!
//! Building those structures is the business of an external collaborator;
//! this crate only captures the opaque traversable handle a finished build
//! exposes, so an instance can reference the structure it places.

use vstd::prelude::*;

verus! {

/// An opaque driver-issued reference to a built acceleration structure,
/// used by instances and by the traversal stage. The driver assigns the
/// value; this crate never interprets it.
#[derive(Clone, Copy, Debug, PartialEq, Eq, Structural)]
pub struct TraversableHandle {
    pub value: u64,
}

/// A built bottom-level acceleration structure, seen through the one part
/// of its interface this crate consumes: the traversable handle of the
/// finished build. The builder that produces the structure lives outside
/// this crate and hands the handle over once the build is complete; an
/// `Accel` therefore always carries a valid handle.
pub struct Accel {
    handle: TraversableHandle,
}

impl Accel {
    /// The handle this structure was given when it was built.
    pub closed spec fn spec_handle(&self) -> TraversableHandle {
        self.handle
    }

    /// Wraps the traversable handle of an already built structure.
    pub fn from_handle(handle: TraversableHandle) -> (r: Accel)
        ensures
            r.spec_handle() == handle,
    {
        Accel { handle }
    }

    /// The traversable handle captured at build time.
    pub fn handle(&self) -> (r: TraversableHandle)
        ensures
            r == self.spec_handle(),
    {
        self.handle
    }
}

} // verus!
