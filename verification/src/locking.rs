//! Trusted declarations of the standard library's mutual-exclusion and
//! wait/notify primitives.
//!
//! vstd gives no specification for `std::sync::Mutex` or `std::sync::Condvar`,
//! so this module declares the types and wraps the few calls the queue makes.
//! None of the wrappers promises anything about the value a mutex protects:
//! between two acquisitions any other thread may have changed it, so the code
//! that holds a guard learns the buffer's state only by inspecting the value
//! it takes out, and is verified for every value it could find there.

use vstd::prelude::*;
use std::collections::VecDeque;
use std::sync::Condvar;
use std::sync::Mutex;
use std::sync::MutexGuard;

verus! {

#[verifier::external_type_specification]
#[verifier::external_body]
#[verifier::reject_recursive_types(T)]
pub struct ExMutex<T: ?Sized>(Mutex<T>);

#[verifier::external_type_specification]
#[verifier::external_body]
#[verifier::reject_recursive_types(T)]
pub struct ExMutexGuard<'a, T: ?Sized + 'a>(MutexGuard<'a, T>);

#[verifier::external_type_specification]
#[verifier::external_body]
pub struct ExCondvar(Condvar);

/// Relies on `std::sync::Mutex::new`: wraps `value` in a new, unlocked mutex.
#[verifier::external_body]
pub(crate) fn mutex_new<T>(value: T) -> Mutex<T> {
    Mutex::new(value)
}

/// Relies on `std::sync::Condvar::new`: a fresh condition variable with no waiters.
#[verifier::external_body]
pub(crate) fn condvar_new() -> Condvar {
    Condvar::new()
}

/// Relies on `std::sync::Mutex::lock`: blocks until no other thread holds the
/// lock, then returns the guard that holds it until dropped. Panics if the
/// mutex is poisoned (a thread panicked while holding it); that is the
/// unrecoverable-lock condition, surfaced to the caller rather than swallowed.
#[verifier::external_body]
pub(crate) fn lock<'a, T>(mutex: &'a Mutex<T>) -> MutexGuard<'a, T> {
    mutex.lock().unwrap()
}

/// Relies on `std::sync::Condvar::wait_while`: while the closure returns
/// true, atomically releases the mutex behind `guard` and suspends the
/// calling thread, reacquiring the mutex and re-running the closure after
/// every wakeup, so a spurious wakeup or a raced notification just sends the
/// thread back to sleep. It returns, with the mutex held since the closure
/// last ran, only once the closure has returned false. The closure here only
/// calls [`crate::claim_head`], whose contract says it returns false exactly
/// when it has claimed a head element into `out`; `out` is not touched
/// afterwards, which is what the `ensures` states. Panics if the mutex is
/// poisoned, as `lock` does.
#[verifier::external_body]
pub(crate) fn wait_for_head<'a, T>(
    cv: &Condvar,
    guard: MutexGuard<'a, VecDeque<T>>,
    out: &mut Option<T>,
) -> (reacquired: MutexGuard<'a, VecDeque<T>>)
    ensures
        *final(out) is Some,
{
    cv.wait_while(guard, |pending| crate::claim_head(pending, out)).unwrap()
}

/// Relies on `std::sync::Condvar::notify_one`: makes at least one thread
/// currently waiting on `cv` runnable, if any is; otherwise does nothing. A
/// wakeup alone implies nothing about the protected value, which is why
/// `wait_for_head` re-checks it after every wakeup.
#[verifier::external_body]
pub(crate) fn notify_one(cv: &Condvar) {
    cv.notify_one();
}

/// Relies on `core::mem::replace`, applied through the guard's `DerefMut`:
/// moves `value` into the slot the guard protects and returns the value that
/// was there. This hands the protected buffer to verified code by value and
/// puts it back, so every step of the locked critical section is checked.
#[verifier::external_body]
pub(crate) fn guard_replace<'a, T>(guard: &mut MutexGuard<'a, T>, value: T) -> T {
    core::mem::replace(&mut **guard, value)
}

} // verus!
