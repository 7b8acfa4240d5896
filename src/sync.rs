//! The blocking primitive: std's mutex and condition variable, as seen by the
//! verified code. Values behind a mutex are only ever moved in and out whole,
//! so the guarantees about them come from their own types.
use vstd::prelude::*;

verus! {

#[verifier::external_type_specification]
#[verifier::external_body]
#[verifier::reject_recursive_types(T)]
pub struct ExMutex<T: ?Sized>(std::sync::Mutex<T>);

#[verifier::external_type_specification]
#[verifier::external_body]
#[verifier::reject_recursive_types(T)]
pub struct ExMutexGuard<'a, T: ?Sized + 'a>(std::sync::MutexGuard<'a, T>);

#[verifier::external_type_specification]
#[verifier::external_body]
pub struct ExCondvar(std::sync::Condvar);

#[verifier::external_type_specification]
#[verifier::external_body]
pub struct ExWaitTimeoutResult(std::sync::WaitTimeoutResult);

pub assume_specification<T>[ std::sync::Mutex::<T>::new ](t: T) -> std::sync::Mutex<T>;

pub assume_specification[ std::sync::Condvar::new ]() -> std::sync::Condvar;

pub assume_specification[ std::sync::Condvar::notify_one ](c: &std::sync::Condvar);

pub assume_specification[ std::sync::Condvar::notify_all ](c: &std::sync::Condvar);

pub assume_specification[ std::sync::WaitTimeoutResult::timed_out ](
    r: &std::sync::WaitTimeoutResult,
) -> bool;

/// Relies on std::sync::Mutex::lock, which blocks until the calling thread
/// holds the mutex. No critical section of this crate panics, so the mutex is
/// never poisoned; the guard is taken back either way. No thread of this
/// crate locks a mutex that it already holds.
#[verifier::external_body]
pub(crate) fn lock<T>(m: &std::sync::Mutex<T>) -> std::sync::MutexGuard<'_, T> {
    m.lock().unwrap_or_else(std::sync::PoisonError::into_inner)
}

/// Relies on Deref of std::sync::MutexGuard: a copy of the value under the
/// lock.
#[verifier::external_body]
pub(crate) fn load<T: Copy>(g: &std::sync::MutexGuard<'_, T>) -> T {
    **g
}

/// Relies on DerefMut of std::sync::MutexGuard: replaces the value under the
/// lock.
#[verifier::external_body]
pub(crate) fn store<T>(g: &mut std::sync::MutexGuard<'_, T>, v: T) {
    **g = v;
}

} // verus!
