//! The lifecycle of a native debug-info builder resource: metadata is
//! finalized at most once before the resource is released, and the resource is
//! released exactly once.

use vstd::prelude::*;

verus! {

/// Where a builder stands in its life.
#[derive(Clone, Copy, Debug, PartialEq, Eq, Hash, Structural)]
pub enum BuilderState {
    /// Nodes are being created; the deferred metadata has not been flushed.
    Building,
    /// The deferred metadata has been flushed at least once.
    Finalized,
    /// The native resource has been released; nothing more may happen.
    Disposed,
}

impl BuilderState {
    /// Whether the native resource is still held.
    pub open spec fn is_live(self) -> bool {
        self != BuilderState::Disposed
    }

    /// The state after a flush of the deferred metadata.
    pub open spec fn after_finish(self) -> BuilderState {
        BuilderState::Finalized
    }

    /// Whether teardown from this state flushes the deferred metadata before the
    /// release: only when no flush has happened yet, and only when a compile
    /// unit exists, without which the emitter's flush is undefined.
    pub open spec fn teardown_finalizes(self, has_compile_unit: bool) -> bool {
        self == BuilderState::Building && has_compile_unit
    }

    /// The state after teardown.
    pub open spec fn after_teardown(self) -> BuilderState {
        BuilderState::Disposed
    }

    /// Records a flush of the deferred metadata.
    pub fn finish(&mut self)
        requires
            old(self).is_live(),
        ensures
            *final(self) == old(self).after_finish(),
    {
        *self = BuilderState::Finalized;
    }

    /// Records teardown, and says whether the deferred metadata must be flushed
    /// before the native resource is released.
    pub fn teardown(&mut self, has_compile_unit: bool) -> (finalize_first: bool)
        requires
            old(self).is_live(),
        ensures
            finalize_first == old(self).teardown_finalizes(has_compile_unit),
            *final(self) == old(self).after_teardown(),
    {
        let finalize_first = match *self {
            BuilderState::Building => has_compile_unit,
            _ => false,
        };
        *self = BuilderState::Disposed;
        finalize_first
    }
}

/// A flush followed by teardown releases the resource once and does not flush
/// again: teardown asks for no second flush, and leaves a state from which no
/// further flush or teardown is admitted.
pub proof fn finish_then_teardown_disposes_once(s: BuilderState, has_compile_unit: bool)
    requires
        s.is_live(),
    ensures
        s.after_finish().is_live(),
        !s.after_finish().teardown_finalizes(has_compile_unit),
        !s.after_finish().after_teardown().is_live(),
{
}

} // verus!
