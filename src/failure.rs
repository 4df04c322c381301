use vstd::prelude::*;

verus! {

/// The misuses that the checked accessors detect.
#[derive(Clone, Copy, Debug, PartialEq, Eq, Structural)]
pub enum Failure {
    /// A [`crate::ManuallyStaticRef`] was used after its cell was dropped.
    RefAfterDrop,
    /// A [`crate::ManuallyStaticRefMut`] was used after its cell was dropped.
    RefMutAfterDrop,
    /// A [`crate::stack_and_ref::ManuallyStaticRef`] was used after its cell was dropped.
    StackRefAfterDrop,
    /// A [`crate::ManuallyStaticPtr`] was dereferenced after its block was freed.
    PtrAfterFree,
    /// The block of a [`crate::ManuallyStaticPtr`] was freed a second time.
    DoubleFree,
    /// The last [`crate::ManuallyStaticPtr`] of a block went away before the block was freed.
    DroppedBeforeFreed,
}

impl Failure {
    /// The diagnostic that names the type misused and the contract broken.
    pub fn message(&self) -> (r: &'static str)
        ensures
            *self == Failure::RefAfterDrop ==> r@
                == "ManuallyStaticRef: Attempted to dereference value after ManuallyStatic was dropped!"@,
            *self == Failure::RefMutAfterDrop ==> r@
                == "ManuallyStaticRefMut: Attempted to dereference value after ManuallyStatic was dropped!"@,
            *self == Failure::StackRefAfterDrop ==> r@
                == "Attempted to dereference ManuallyStaticRef after ManuallyStatic was dropped!"@,
            *self == Failure::PtrAfterFree ==> r@
                == "ManuallyStaticPtr: Attempted to dereference a freed pointer!"@,
            *self == Failure::DoubleFree ==> r@ == "Attempted to double free ManuallyStaticPtr!"@,
            *self == Failure::DroppedBeforeFreed ==> r@
                == "Attempted to drop the last ManuallyStaticPtr instance before it was freed!"@,
    {
        match self {
            Failure::RefAfterDrop => "ManuallyStaticRef: Attempted to dereference value after ManuallyStatic was dropped!",
            Failure::RefMutAfterDrop => "ManuallyStaticRefMut: Attempted to dereference value after ManuallyStatic was dropped!",
            Failure::StackRefAfterDrop => "Attempted to dereference ManuallyStaticRef after ManuallyStatic was dropped!",
            Failure::PtrAfterFree => "ManuallyStaticPtr: Attempted to dereference a freed pointer!",
            Failure::DoubleFree => "Attempted to double free ManuallyStaticPtr!",
            Failure::DroppedBeforeFreed => "Attempted to drop the last ManuallyStaticPtr instance before it was freed!",
        }
    }
}

/// What a liveness check decides: a view may be used while its owner is alive.
pub open spec fn liveness_spec(dropped: bool, kind: Failure) -> Result<(), Failure> {
    if dropped {
        Err(kind)
    } else {
        Ok(())
    }
}

/// Decides a liveness check from the flag's value, reporting `kind` on misuse.
pub fn liveness_verdict(dropped: bool, kind: Failure) -> (r: Result<(), Failure>)
    ensures
        r == liveness_spec(dropped, kind),
{
    if dropped {
        Err(kind)
    } else {
        Ok(())
    }
}

} // verus!
