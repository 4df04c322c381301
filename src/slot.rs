//! The storage that a cell shares with all of its views: one value behind a
//! lock, replaced in place by writers and read afresh by every access.
use std::sync::{Arc, Mutex};
use vstd::prelude::*;

verus! {

#[verifier::external_type_specification]
#[verifier::external_body]
#[verifier::reject_recursive_types(T)]
pub struct ExMutex<T: ?Sized>(Mutex<T>);

/// A shared slot. Every handle to it sees the same current value.
pub type Slot<T> = Arc<Mutex<Arc<T>>>;

/// Relies on `Mutex::new`: a fresh lock around the value.
#[verifier::external_body]
pub(crate) fn new_slot<T>(value: Arc<T>) -> (r: Slot<T>) {
    Arc::new(Mutex::new(value))
}

/// Relies on `Mutex::lock`: a share of the value the slot holds now. A lock
/// poisoned by a panicking holder is taken as it is (`PoisonError::into_inner`).
/// The lock is never held while code of `T` runs, so it is never taken
/// twice by one thread and `lock` does not panic.
#[verifier::external_body]
pub(crate) fn read_slot<T>(slot: &Mutex<Arc<T>>) -> (r: Arc<T>) {
    slot.lock().unwrap_or_else(std::sync::PoisonError::into_inner).clone()
}

/// Relies on `Mutex::lock`, as `read_slot` does: puts `value` in the slot and
/// hands the previous value back, so that it is dropped after the lock is released.
#[verifier::external_body]
pub(crate) fn replace_slot<T>(slot: &Mutex<Arc<T>>, value: Arc<T>) -> (old_value: Arc<T>) {
    std::mem::replace(&mut *slot.lock().unwrap_or_else(std::sync::PoisonError::into_inner), value)
}

} // verus!
