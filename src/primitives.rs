use std::cell::UnsafeCell;
use std::sync::atomic::{AtomicU32, AtomicUsize, Ordering};
use vstd::prelude::*;

verus! {

/// `std::cell::UnsafeCell`, declared so that the library's types can hold one. Verus sees
/// nothing inside it; the library never reaches into it.
#[verifier::external_type_specification]
#[verifier::external_body]
#[verifier::reject_recursive_types(T)]
pub struct ExUnsafeCell<T: ?Sized>(UnsafeCell<T>);

/// Relies on `UnsafeCell::new`, which wraps the value; nothing is stated of the result.
pub assume_specification<T>[ UnsafeCell::<T>::new ](value: T) -> UnsafeCell<T>;

/// Relies on `AtomicU32::compare_exchange`: `Ok` holds the previous value, which equalled
/// `current`; `Err` holds the previous value, which did not. It panics on a `Release` or
/// `AcqRel` failure ordering, which `requires` leaves out.
#[verifier::external_body]
pub(crate) fn compare_exchange_u32(
    a: &AtomicU32,
    current: u32,
    new: u32,
    success: Ordering,
    failure: Ordering,
) -> (r: Result<u32, u32>)
    requires
        !(failure is Release),
        !(failure is AcqRel),
    ensures
        r matches Ok(v) ==> v == current,
        r matches Err(v) ==> v != current,
{
    a.compare_exchange(current, new, success, failure)
}

/// Relies on `AtomicUsize::compare_exchange`: `Ok` holds the previous value, which equalled
/// `current`; `Err` holds the previous value, which did not. It panics on a `Release` or
/// `AcqRel` failure ordering, which `requires` leaves out.
#[verifier::external_body]
pub(crate) fn compare_exchange_usize(
    a: &AtomicUsize,
    current: usize,
    new: usize,
    success: Ordering,
    failure: Ordering,
) -> (r: Result<usize, usize>)
    requires
        !(failure is Release),
        !(failure is AcqRel),
    ensures
        r matches Ok(v) ==> v == current,
        r matches Err(v) ==> v != current,
{
    a.compare_exchange(current, new, success, failure)
}

/// Relies on `std::hint::spin_loop`: a hint to the processor inside a busy-wait loop; it has
/// no effect on any value.
#[verifier::external_body]
pub(crate) fn spin_hint() {
    std::hint::spin_loop()
}

/// Relies on `std::sync::atomic::fence` with acquire ordering; nothing is returned.
#[verifier::external_body]
pub(crate) fn acquire_fence() {
    std::sync::atomic::fence(Ordering::Acquire)
}

/// Relies on `Clone` for `std::sync::Arc`: the clone shares the same allocation.
#[verifier::external_body]
pub(crate) fn share<U>(a: &std::sync::Arc<U>) -> (r: std::sync::Arc<U>)
    ensures
        r == *a,
{
    std::sync::Arc::clone(a)
}

} // verus!
