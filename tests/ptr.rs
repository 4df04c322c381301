use manually_static::ptr::{free_verdict, release_verdict};
use manually_static::{Failure, ManuallyStaticPtr};

#[test]
fn test_manually_static_ptr_creation_and_deref() {
    let ptr = ManuallyStaticPtr::new(42);

    assert_eq!(*ptr, 42);

    assert_eq!(ptr.free(), Ok(()));
}

#[test]
fn second_free_through_clone_is_double_free() {
    let ptr = ManuallyStaticPtr::new(3);
    let ptr2 = ptr.clone();

    assert_eq!(ptr.free(), Ok(()));
    let failure = ptr2.free().unwrap_err();
    assert_eq!(failure, Failure::DoubleFree);
    assert_eq!(failure.message(), "Attempted to double free ManuallyStaticPtr!");
}

#[test]
fn deref_of_clone_after_free_is_use_after_free() {
    let ptr = ManuallyStaticPtr::new(vec![1, 2, 3]);
    let ptr2 = ptr.clone();
    assert_eq!(ptr2.try_deref(), Ok(&vec![1, 2, 3]));

    assert_eq!(ptr.free(), Ok(()));

    let failure = ptr2.try_deref().unwrap_err();
    assert_eq!(failure, Failure::PtrAfterFree);
    assert_eq!(
        failure.message(),
        "ManuallyStaticPtr: Attempted to dereference a freed pointer!"
    );
    assert_eq!(ptr2.release(), Ok(()));
}

#[test]
fn last_handle_released_before_free_is_reported() {
    let ptr = ManuallyStaticPtr::new(3);

    let failure = ptr.release().unwrap_err();
    assert_eq!(failure, Failure::DroppedBeforeFreed);
    assert_eq!(
        failure.message(),
        "Attempted to drop the last ManuallyStaticPtr instance before it was freed!"
    );
}

#[test]
fn releasing_clones_then_freeing_the_last_is_fine() {
    let ptr = ManuallyStaticPtr::new(5u8);
    let a = ptr.clone();
    let b = a.clone();

    assert_eq!(*a, 5);
    assert_eq!(*b, 5);
    assert_eq!(a.release(), Ok(()));
    assert_eq!(b.release(), Ok(()));
    assert_eq!(ptr.free(), Ok(()));
}

#[test]
fn release_after_free_is_fine() {
    let ptr = ManuallyStaticPtr::new(1);
    let other = ptr.clone();

    assert_eq!(ptr.free(), Ok(()));
    assert_eq!(other.release(), Ok(()));
}

#[test]
fn clones_share_the_payload() {
    let ptr = ManuallyStaticPtr::new(std::sync::atomic::AtomicU32::new(1));
    let twin = ptr.clone();

    ptr.store(9, std::sync::atomic::Ordering::SeqCst);
    assert_eq!(twin.load(std::sync::atomic::Ordering::SeqCst), 9);
    assert_eq!(ptr.free(), Ok(()));
    assert_eq!(twin.release(), Ok(()));
}

#[test]
fn verdicts_on_given_values() {
    assert_eq!(free_verdict(false), Ok(()));
    assert_eq!(free_verdict(true), Err(Failure::DoubleFree));
    assert_eq!(release_verdict(1, false), Err(Failure::DroppedBeforeFreed));
    assert_eq!(release_verdict(1, true), Ok(()));
    assert_eq!(release_verdict(2, false), Ok(()));
}
