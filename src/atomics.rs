use std::sync::atomic::AtomicBool;
use std::sync::Arc;
use vstd::prelude::*;

verus! {

/// The owner's end of a liveness flag: it goes away with the cell that holds
/// it, and marks the flag as dropped when it does.
pub(crate) struct OwnerMark {
    pub(crate) flag: Arc<AtomicBool>,
}

impl OwnerMark {
    /// A fresh flag, alive.
    pub(crate) fn new() -> (r: Self) {
        OwnerMark { flag: Arc::new(AtomicBool::new(false)) }
    }
}

/// Relies on `AtomicBool::store` with release ordering: when the owner goes
/// away the flag reads dropped for every view that shares it.
impl Drop for OwnerMark {
    #[verifier::external_body]
    fn drop(&mut self)
        opens_invariants none
        no_unwind
    {
        self.flag.store(true, std::sync::atomic::Ordering::Release);
    }
}

} // verus!
