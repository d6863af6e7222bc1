use vstd::prelude::*;

use crate::status::LoadState;
use crate::status::aggregate;
use crate::status::aggregate_status;

verus! {

/// Opaque identifier of a requested external resource, such as a mesh.
/// The readiness gate never looks inside it; it only needs handles to be
/// distinguishable, so that none is registered twice.
#[derive(Clone, Copy, PartialEq, Eq, Structural, Debug)]
pub struct AssetHandle {
    pub id: u64,
}

/// Tracks the set of pending asset-load handles and answers, each tick,
/// what their aggregate load state is. Handles are registered during the
/// startup phase, before polling begins; polling never mutates the set.
pub struct ReadinessGate {
    handles: Vec<AssetHandle>,
}

impl ReadinessGate {
    /// The registered handles, in registration order.
    pub closed spec fn handles_seq(&self) -> Seq<AssetHandle> {
        self.handles@
    }

    /// Whether `h` has been registered.
    pub open spec fn has_handle(&self, h: AssetHandle) -> bool {
        self.handles_seq().contains(h)
    }

    /// Every handle was requested exactly once: no handle appears twice.
    pub open spec fn wf(&self) -> bool {
        forall|i: int, j: int|
            0 <= i < j < self.handles_seq().len() ==> self.handles_seq()[i] != self.handles_seq()[j]
    }

    /// A gate with no pending handles.
    pub fn new() -> (g: Self)
        ensures
            g.wf(),
            g.handles_seq() == Seq::<AssetHandle>::empty(),
    {
        ReadinessGate { handles: Vec::new() }
    }

    /// Number of registered handles.
    pub fn len(&self) -> (n: usize)
        ensures
            n == self.handles_seq().len(),
    {
        self.handles.len()
    }

    /// Whether `h` has been registered.
    pub fn contains(&self, h: AssetHandle) -> (b: bool)
        ensures
            b == self.has_handle(h),
    {
        let mut i: usize = 0;
        while i < self.handles.len()
            invariant
                0 <= i <= self.handles@.len(),
                forall|j: int| 0 <= j < i ==> self.handles@[j] != h,
            decreases self.handles@.len() - i,
        {
            if self.handles[i] == h {
                return true;
            }
            i = i + 1;
        }
        false
    }

    /// The handle at position `i`, so that a caller can ask the
    /// asset-loading collaborator for its status.
    pub fn handle_at(&self, i: usize) -> (h: AssetHandle)
        requires
            i < self.handles_seq().len(),
        ensures
            h == self.handles_seq()[i as int],
    {
        self.handles[i]
    }

    /// Adds a load request to the pending set. To be called only during
    /// the startup phase, before the first poll; a handle is never
    /// registered twice.
    pub fn register(&mut self, h: AssetHandle)
        requires
            old(self).wf(),
            !old(self).has_handle(h),
        ensures
            final(self).wf(),
            final(self).handles_seq() == old(self).handles_seq().push(h),
    {
        self.handles.push(h);
    }

    /// Per-tick poll. `statuses[i]` is the status that the asset-loading
    /// collaborator reports for the handle at position `i`. Returns
    /// `Failed` if any handle failed, `Loaded` only when every handle has
    /// loaded (vacuously so for an empty gate), `Pending` otherwise.
    /// A pure query: the pending set is not mutated.
    pub fn poll(&self, statuses: &Vec<LoadState>) -> (r: LoadState)
        requires
            statuses@.len() == self.handles_seq().len(),
        ensures
            r == aggregate(statuses@),
    {
        aggregate_status(statuses)
    }
}

} // verus!
