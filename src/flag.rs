use std::sync::atomic::AtomicBool;
use std::sync::atomic::Ordering;
use std::sync::Arc;
use vstd::prelude::*;

verus! {

/// A shared stop request. Clones share one cell, so a request made through
/// any handle is seen through all of them.
pub struct TerminationFlag(Arc<AtomicBool>);

impl TerminationFlag {
    /// A flag on which no stop has been requested yet.
    pub fn new() -> (r: TerminationFlag) {
        TerminationFlag(Arc::new(AtomicBool::new(false)))
    }

    /// Requests a stop. Release ordering: work done before the request is
    /// visible to a handle that observes it.
    pub fn notify(&self) {
        self.0.store(true, Ordering::Release);
    }

    /// Whether a stop has been requested, read with acquire ordering. Never
    /// blocks.
    pub fn should_terminate(&self) -> (r: bool) {
        self.0.load(Ordering::Acquire)
    }
}

impl Clone for TerminationFlag {
    /// A second handle on the same cell.
    fn clone(&self) -> (r: TerminationFlag) {
        TerminationFlag(Arc::clone(&self.0))
    }
}

} // verus!
