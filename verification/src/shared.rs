//! Sharing a runtime between devices: the parts of `std::sync` that the backend uses.
use std::sync::{Arc, Mutex, MutexGuard, PoisonError};
use vstd::prelude::*;

verus! {

/// A lock around a value.
#[verifier::external_type_specification]
#[verifier::external_body]
#[verifier::reject_recursive_types(T)]
pub struct ExMutex<T: ?Sized>(Mutex<T>);

/// The right to use a locked value.
#[verifier::external_type_specification]
#[verifier::external_body]
#[verifier::reject_recursive_types(T)]
pub struct ExMutexGuard<'a, T: ?Sized + 'a>(MutexGuard<'a, T>);

/// The report that a holder of the lock panicked.
#[verifier::external_type_specification]
#[verifier::external_body]
#[verifier::reject_recursive_types(T)]
pub struct ExPoisonError<T>(PoisonError<T>);

/// `std::sync::Mutex::new` puts a value behind a lock. The value can only be had through the lock,
/// so nothing is claimed.
pub assume_specification<T>[ std::sync::Mutex::<T>::new ](t: T) -> (r: std::sync::Mutex<T>)
;

/// `std::sync::Mutex::lock` waits for the lock. Whether an earlier holder panicked rests on what
/// other threads did; nothing is claimed of the result. A thread that already holds the lock may
/// not call it: the backend takes the lock in one function, which gives it back.
pub assume_specification<T: ?Sized>[ std::sync::Mutex::<T>::lock ](
    m: &std::sync::Mutex<T>,
) -> (r: std::result::Result<
    std::sync::MutexGuard<'_, T>,
    std::sync::PoisonError<std::sync::MutexGuard<'_, T>>,
>)
;

/// `std::ops::DerefMut::deref_mut` of a guard lends the locked value. What earlier holders left in
/// it is not known; nothing is claimed.
#[verifier::external_body]
pub(crate) fn locked<'a, 'b, T>(guard: &'a mut MutexGuard<'b, T>) -> (r: &'a mut T) {
    std::ops::DerefMut::deref_mut(guard)
}

/// `std::sync::Arc::clone` makes another pointer to the same value.
#[verifier::external_body]
pub(crate) fn share<T>(a: &Arc<T>) -> (r: Arc<T>)
    ensures
        r == *a,
{
    Arc::clone(a)
}

/// A value in an allocation of its own, marked with the identity of the allocation.
#[verifier::reject_recursive_types(T)]
pub(crate) struct Shared<T> {
    pointer: Arc<T>,
    id: Ghost<nat>,
}

impl<T> Shared<T> {
    /// The value.
    pub(crate) closed spec fn value(&self) -> T {
        *self.pointer
    }

    /// The identity of the allocation.
    pub(crate) closed spec fn id(&self) -> nat {
        self.id@
    }

    /// Borrows the value.
    pub(crate) fn get(&self) -> (r: &T)
        ensures
            *r == self.value(),
    {
        &self.pointer
    }
}

/// `std::sync::Arc::new` allocates memory for a value. The allocation is marked with an identity that no
/// other allocation has; which one that is, is not claimed.
#[verifier::external_body]
pub(crate) fn allocate<T>(value: T) -> (r: Shared<T>)
    ensures
        r.value() == value,
{
    Shared { pointer: Arc::new(value), id: Ghost(arbitrary()) }
}

/// `std::sync::Arc::ptr_eq` tells whether two pointers point to the same allocation, which is to say,
/// whether the allocations have the same identity.
#[verifier::external_body]
pub(crate) fn same_allocation<T>(a: &Shared<T>, b: &Shared<T>) -> (r: bool)
    ensures
        r == (a.id() == b.id()),
{
    Arc::ptr_eq(&a.pointer, &b.pointer)
}

} // verus!
