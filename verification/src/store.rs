//! The single shared cell holding the latest published snapshot.
//!
//! One sampler writes it, the renderer reads it.  A publish replaces the
//! snapshot wholesale — no history is kept and no reader ever sees a
//! half-built value.  The mutual exclusion itself is the embedding
//! program's concern; this type fixes what publishing and reading mean.

use vstd::prelude::*;

use crate::snapshot::{sys_wf, SystemData};

verus! {

/// Holds the current snapshot.  Only well-formed snapshots can be
/// stored, so every read yields a well-formed one.
pub struct SnapshotStore {
    current: SystemData,
}

impl SnapshotStore {
    #[verifier::type_invariant]
    spec fn inv(self) -> bool {
        sys_wf(self.current)
    }

    /// The snapshot the store holds.
    pub closed spec fn snapshot(&self) -> SystemData {
        self.current
    }

    pub fn new(initial: SystemData) -> (s: SnapshotStore)
        requires
            sys_wf(initial),
        ensures
            s.snapshot() == initial,
    {
        SnapshotStore { current: initial }
    }

    /// Replaces the held snapshot wholesale.
    pub fn publish(&mut self, snap: SystemData)
        requires
            sys_wf(snap),
        ensures
            final(self).snapshot() == snap,
    {
        self.current = snap;
    }

    /// Borrows the latest published snapshot.  Reading never changes the
    /// store, so two reads without an intervening publish yield the same
    /// data.
    pub fn read(&self) -> (r: &SystemData)
        ensures
            *r == self.snapshot(),
            sys_wf(*r),
    {
        proof {
            use_type_invariant(&*self);
        }
        &self.current
    }
}

/// Reading is idempotent: any two values read from the same store state,
/// with no publish in between, are identical.
pub proof fn lemma_read_idempotent(store: &SnapshotStore, first: SystemData, second: SystemData)
    requires
        first == store.snapshot(),
        second == store.snapshot(),
    ensures
        first == second,
{
}

} // verus!
