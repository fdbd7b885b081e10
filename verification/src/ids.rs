//! Identities and their allocation.
//!
//! Every entity of the engine (question, answer, set, exam, attempt, user)
//! is named by a plain numeric identity; only equality of identities ever
//! matters to the engine. A caller that stores entities under another naming
//! scheme maps its names onto these values at the boundary.

use vstd::prelude::*;

verus! {

/// An entity identity. Only compared for equality.
pub type Id = u64;

/// Allocates identities for freshly generated entities by counting upward.
///
/// The caller chooses the starting point; the counter wraps at the top of
/// the range rather than failing, so allocation never panics.
pub struct IdGen {
    pub next: Id,
}

impl IdGen {
    /// Start allocating at `start`.
    pub fn new(start: Id) -> (g: IdGen)
        ensures
            g.next == start,
    {
        IdGen { next: start }
    }

    /// Hand out the current counter value and advance it.
    pub fn fresh(&mut self) -> (id: Id)
        ensures
            id == old(self).next,
            final(self).next == if old(self).next < u64::MAX {
                (old(self).next + 1) as u64
            } else {
                0u64
            },
    {
        let id = self.next;
        if self.next < u64::MAX {
            self.next = self.next + 1;
        } else {
            self.next = 0;
        }
        id
    }
}

} // verus!
