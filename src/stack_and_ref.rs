//! The read-only flavour of the cell: it hands out shared views only.
use crate::atomics;
use crate::failure::{liveness_verdict, Failure};
use std::sync::atomic::{AtomicBool, Ordering};
use std::sync::Arc;
use vstd::prelude::*;

verus! {

/// Owns a value and hands out read-only views of it that do not borrow the
/// owner; destroying the owner marks the shared liveness flag.
pub struct ManuallyStatic<T> {
    was_dropped: atomics::OwnerMark,
    value: Arc<T>,
}

impl<T> View for ManuallyStatic<T> {
    type V = T;

    closed spec fn view(&self) -> T {
        *self.value
    }
}

impl<T> ManuallyStatic<T> {
    /// Creates a cell holding `value`; its liveness flag starts out alive.
    pub fn new(value: T) -> (r: Self)
        ensures
            r@ == value,
    {
        ManuallyStatic { was_dropped: atomics::OwnerMark::new(), value: Arc::new(value) }
    }

    /// A read-only view of the value that shares the cell's liveness flag.
    pub fn get_ref(&self) -> (r: ManuallyStaticRef<T>)
        ensures
            r@ == self@,
    {
        ManuallyStaticRef { value_ref: self.value.clone(), was_dropped: self.was_dropped.flag.clone() }
    }
}

/// A read-only view of the value held by a [`ManuallyStatic`], usable after
/// the cell itself is gone.
pub struct ManuallyStaticRef<T> {
    value_ref: Arc<T>,
    was_dropped: Arc<AtomicBool>,
}

impl<T> View for ManuallyStaticRef<T> {
    type V = T;

    closed spec fn view(&self) -> T {
        *self.value_ref
    }
}

impl<T> ManuallyStaticRef<T> {
    /// The checked access: gives the value only while the owning cell is alive.
    pub fn try_get(&self) -> (r: Result<&T, Failure>)
        ensures
            r is Ok ==> *r->Ok_0 == self@,
            r is Err ==> r->Err_0 == Failure::StackRefAfterDrop,
    {
        let dropped = self.was_dropped.load(Ordering::Acquire);
        match liveness_verdict(dropped, Failure::StackRefAfterDrop) {
            Ok(()) => Ok(&*self.value_ref),
            Err(e) => Err(e),
        }
    }
}

impl<T> std::ops::Deref for ManuallyStaticRef<T> {
    type Target = T;

    /// The unchecked access: the value is still owned by the view, so this
    /// never fails.
    fn deref(&self) -> (r: &T)
        ensures
            *r == self@,
    {
        &*self.value_ref
    }
}

} // verus!
