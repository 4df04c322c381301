//! A heap value shared by cloned handles and freed by exactly one of them.
use crate::failure::{liveness_verdict, Failure};
use std::sync::atomic::{AtomicBool, AtomicUsize, Ordering};
use std::sync::Arc;
use vstd::prelude::*;

verus! {

/// What freeing decides, given whether the block was already freed.
pub open spec fn free_spec(was_freed: bool) -> Result<(), Failure> {
    if was_freed {
        Err(Failure::DoubleFree)
    } else {
        Ok(())
    }
}

/// What giving up a handle decides, given the count before it left and
/// whether the block was freed: the last handle must not leave an unfreed block.
pub open spec fn release_spec(prev: int, freed: bool) -> Result<(), Failure> {
    if prev == 1 && !freed {
        Err(Failure::DroppedBeforeFreed)
    } else {
        Ok(())
    }
}

/// Decides a free from the flag's previous value.
pub fn free_verdict(was_freed: bool) -> (r: Result<(), Failure>)
    ensures
        r == free_spec(was_freed),
{
    if was_freed {
        Err(Failure::DoubleFree)
    } else {
        Ok(())
    }
}

/// Decides the release of a handle from the count before it left and the
/// freed flag.
pub fn release_verdict(prev: usize, freed: bool) -> (r: Result<(), Failure>)
    ensures
        r == release_spec(prev as int, freed),
{
    if prev == 1 && !freed {
        Err(Failure::DroppedBeforeFreed)
    } else {
        Ok(())
    }
}

/// Allocates `T` on the heap and hands out handles to it that are shared by
/// cloning and that must be freed exactly once, through any one of them.
///
/// The value is held by shared ownership, so it stays readable through the
/// unchecked dereference whatever the handles do; the checked calls report
/// a use after free, a double free, or a last handle given up before the
/// block was freed.
///
/// Every handle must end through [`ManuallyStaticPtr::free`] or
/// [`ManuallyStaticPtr::release`]: a handle that is merely dropped is not
/// counted out, so the check for the last handle cannot see it.
pub struct ManuallyStaticPtr<T> {
    ptr: Arc<T>,
    is_freed: Arc<AtomicBool>,
    ref_count: Arc<AtomicUsize>,
}

impl<T> View for ManuallyStaticPtr<T> {
    type V = T;

    closed spec fn view(&self) -> T {
        *self.ptr
    }
}

impl<T> ManuallyStaticPtr<T> {
    /// Moves `value` to the heap: one handle, not freed.
    pub fn new(value: T) -> (r: Self)
        ensures
            r@ == value,
    {
        ManuallyStaticPtr {
            ptr: Arc::new(value),
            is_freed: Arc::new(AtomicBool::new(false)),
            ref_count: Arc::new(AtomicUsize::new(1)),
        }
    }

    /// The checked dereference: gives the value unless the block was freed.
    pub fn try_deref(&self) -> (r: Result<&T, Failure>)
        ensures
            r is Ok ==> *r->Ok_0 == self@,
            r is Err ==> r->Err_0 == Failure::PtrAfterFree,
    {
        let freed = self.is_freed.load(Ordering::Acquire);
        match liveness_verdict(freed, Failure::PtrAfterFree) {
            Ok(()) => Ok(&*self.ptr),
            Err(e) => Err(e),
        }
    }

    /// Frees the block through this handle, which is given up. Fails with
    /// [`Failure::DoubleFree`] exactly when the block had been freed already.
    pub fn free(self) -> (r: Result<(), Failure>)
        ensures
            r is Ok || r == Err::<(), Failure>(Failure::DoubleFree),
    {
        let was_freed = self.is_freed.swap(true, Ordering::AcqRel);
        let _prev = self.ref_count.fetch_sub(1, Ordering::AcqRel);
        free_verdict(was_freed)
    }

    /// Gives up this handle without freeing. Fails with
    /// [`Failure::DroppedBeforeFreed`] when it was the last handle and the
    /// block was never freed. A handle dropped without this call is never
    /// counted out, and the family's last-handle check misses it.
    pub fn release(self) -> (r: Result<(), Failure>)
        ensures
            r is Ok || r == Err::<(), Failure>(Failure::DroppedBeforeFreed),
    {
        let prev = self.ref_count.fetch_sub(1, Ordering::AcqRel);
        let freed = self.is_freed.load(Ordering::Acquire);
        release_verdict(prev, freed)
    }
}

impl<T> Clone for ManuallyStaticPtr<T> {
    /// A new handle to the same block; the payload is not copied.
    fn clone(&self) -> (r: Self)
        ensures
            r@ == self@,
    {
        self.ref_count.fetch_add(1, Ordering::AcqRel);
        ManuallyStaticPtr {
            ptr: self.ptr.clone(),
            is_freed: self.is_freed.clone(),
            ref_count: self.ref_count.clone(),
        }
    }
}

impl<T> std::ops::Deref for ManuallyStaticPtr<T> {
    type Target = T;

    /// The unchecked dereference: the handle still owns a share of the
    /// value, so this never fails.
    fn deref(&self) -> (r: &T)
        ensures
            *r == self@,
    {
        &*self.ptr
    }
}

} // verus!
