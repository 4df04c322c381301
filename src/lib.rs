//! Values with a manually managed, unbounded lifetime, with a liveness check
//! that callers can consult before use.
use std::sync::atomic::{AtomicBool, Ordering};
use std::sync::Arc;
use vstd::prelude::*;

pub mod failure;
pub mod ptr;
pub mod stack_and_ref;
mod atomics;
mod slot;

pub use failure::Failure;
pub use ptr::ManuallyStaticPtr;

verus! {

/// Owns a value and hands out views of it that do not borrow the owner.
///
/// The cell and its views share one slot that holds the value: a write
/// through any mutable view replaces the value there, and every view, taken
/// before or after the write, reads the new value. A shared liveness flag
/// records that the owner was destroyed; the checked accessors of a view
/// report the misuse.
///
/// Writing in place under a live `&T` would take `unsafe` code, which this
/// crate does not use, so the accessors hand out a share (`Arc<T>`) of the
/// current value rather than a plain reference.
#[verifier::reject_recursive_types(T)]
pub struct ManuallyStatic<T> {
    was_dropped: atomics::OwnerMark,
    value: slot::Slot<T>,
}

impl<T> ManuallyStatic<T> {
    /// Creates a cell holding `value`; its liveness flag starts out alive.
    pub fn new(value: T) -> (r: Self) {
        ManuallyStatic { was_dropped: atomics::OwnerMark::new(), value: slot::new_slot(Arc::new(value)) }
    }

    /// A read-only view of the cell's slot that shares its liveness flag.
    pub fn get_ref(&self) -> (r: ManuallyStaticRef<T>) {
        ManuallyStaticRef { value_ref: self.value.clone(), was_dropped: self.was_dropped.flag.clone() }
    }

    /// A mutable view of the cell's slot that shares its liveness flag.
    pub fn get_mut(&mut self) -> (r: ManuallyStaticRefMut<T>) {
        ManuallyStaticRefMut { value_ref_mut: self.value.clone(), was_dropped: self.was_dropped.flag.clone() }
    }
}

/// A read-only view of the value held by a [`ManuallyStatic`], usable after
/// the cell itself is gone.
#[verifier::reject_recursive_types(T)]
pub struct ManuallyStaticRef<T> {
    value_ref: slot::Slot<T>,
    was_dropped: Arc<AtomicBool>,
}

impl<T> ManuallyStaticRef<T> {
    /// The checked access: reads the liveness flag, and gives the current
    /// value only while the owning cell is alive.
    pub fn try_get(&self) -> (r: Result<Arc<T>, Failure>)
        ensures
            r is Err ==> r->Err_0 == Failure::RefAfterDrop,
    {
        let dropped = self.was_dropped.load(Ordering::Acquire);
        match failure::liveness_verdict(dropped, Failure::RefAfterDrop) {
            Ok(()) => Ok(slot::read_slot(&self.value_ref)),
            Err(e) => Err(e),
        }
    }

    /// The unchecked access: the current value, whether or not the cell is
    /// still alive. The slot is kept by the view, so this never fails.
    pub fn get(&self) -> (r: Arc<T>) {
        slot::read_slot(&self.value_ref)
    }
}

/// A mutable view of the value held by a [`ManuallyStatic`], usable after
/// the cell itself is gone.
#[verifier::reject_recursive_types(T)]
pub struct ManuallyStaticRefMut<T> {
    value_ref_mut: slot::Slot<T>,
    was_dropped: Arc<AtomicBool>,
}

impl<T> ManuallyStaticRefMut<T> {
    /// The checked read: the current value while the owning cell is alive.
    pub fn try_get(&self) -> (r: Result<Arc<T>, Failure>)
        ensures
            r is Err ==> r->Err_0 == Failure::RefMutAfterDrop,
    {
        let dropped = self.was_dropped.load(Ordering::Acquire);
        match failure::liveness_verdict(dropped, Failure::RefMutAfterDrop) {
            Ok(()) => Ok(slot::read_slot(&self.value_ref_mut)),
            Err(e) => Err(e),
        }
    }

    /// The checked write: puts `value` in the cell's slot while the owning
    /// cell is alive, for every view of the cell to read. When the cell is
    /// gone nothing is written.
    pub fn try_set(&self, value: T) -> (r: Result<(), Failure>)
        ensures
            r is Err ==> r->Err_0 == Failure::RefMutAfterDrop,
    {
        let dropped = self.was_dropped.load(Ordering::Acquire);
        match failure::liveness_verdict(dropped, Failure::RefMutAfterDrop) {
            Ok(()) => {
                self.set(value);
                Ok(())
            },
            Err(e) => Err(e),
        }
    }

    /// The unchecked read: the current value.
    pub fn get(&self) -> (r: Arc<T>) {
        slot::read_slot(&self.value_ref_mut)
    }

    /// The unchecked write: puts `value` in the cell's slot, where every
    /// view of the cell reads it.
    pub fn set(&self, value: T) {
        let _previous = slot::replace_slot(&self.value_ref_mut, Arc::new(value));
    }
}

} // verus!
