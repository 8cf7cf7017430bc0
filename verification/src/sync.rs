//! The trusted seam between the verified protocol and the thread
//! primitives of `std::sync` that carry it across threads.
//!
//! Verus has no model of a mutex or a condition variable, so everything
//! here is taken on trust; it is kept as small as possible.  The shape is
//! uniform: each function below performs one critical section on the
//! [`Shared`] block and hands the state to verified code — a transition
//! passed in as a closure, run while the lock is held, together with the
//! verified wait condition.  No contract here claims anything
//! about the state the lock protects beyond "the update ran on some state
//! and its result went back in": with other threads holding senders, that
//! is all that is true of every outcome.
//!
//! A poisoned lock would make these calls panic, as the design demands —
//! a panic while holding the lock means the queue can no longer be
//! trusted.  Within this crate that cannot happen: the lock is only ever
//! held by the functions in this module, and the verified transitions
//! they run are proved free of panics.

use crate::state::must_wait_state;
use crate::state::Inner;
use vstd::prelude::*;

verus! {

#[verifier::external_type_specification]
#[verifier::external_body]
#[verifier::reject_recursive_types(T)]
pub struct ExMutex<T: ?Sized>(std::sync::Mutex<T>);

#[verifier::external_type_specification]
#[verifier::external_body]
pub struct ExCondvar(std::sync::Condvar);

/// The block jointly owned by every handle of one channel: the locked
/// state and the signal that wakes a blocked receiver.
#[verifier::reject_recursive_types(T)]
pub struct Shared<T> {
    pub(crate) inner: std::sync::Mutex<Inner<T>>,
    pub(crate) available: std::sync::Condvar,
}

/// Relied on for construction only; nothing is claimed about the value,
/// since the contents of a mutex shared between threads are not a
/// function of the handle.
pub assume_specification<T>[ std::sync::Mutex::<T>::new ](t: T) -> std::sync::Mutex<T>;

/// Relied on for construction only.
pub assume_specification[ std::sync::Condvar::new ]() -> std::sync::Condvar;

/// Relies on `std::sync::Mutex::lock`: exclusive access to the inner
/// value while the guard lives.  The update `f` runs on the state found
/// behind the lock, and the state it returns is what the next critical
/// section will find.  The contract promises exactly that: `f` was
/// applied once, to some state, and produced the result handed back.
#[verifier::external_body]
pub(crate) fn locked_update<T, R, F: FnOnce(Inner<T>) -> (Inner<T>, R)>(
    s: &Shared<T>,
    f: F,
) -> (r: R)
    requires
        forall|i: Inner<T>| #[trigger] call_requires(f, (i,)),
    ensures
        exists|i0: Inner<T>, i1: Inner<T>| #[trigger] call_ensures(f, (i0,), (i1, r)),
    opens_invariants none
    no_unwind
{
    let mut guard = s.inner.lock().unwrap();
    let (next, r) = f(std::mem::take(&mut *guard));
    *guard = next;
    r
}

/// What a caller of [`wait_then_update`] learns about its result: the
/// update `f` ran once, on a state a receiver need not wait on — a value
/// was queued, or no sender was left alive — and produced `r`.
pub open spec fn ran_on_ready_state<T, R, F: FnOnce(Inner<T>) -> (Inner<T>, R)>(
    f: F,
    r: R,
) -> bool {
    exists|i0: Inner<T>, i1: Inner<T>|
        #[trigger] call_ensures(f, (i0,), (i1, r)) && !must_wait_state(i0)
}

/// Relies on `std::sync::Mutex::lock` and `std::sync::Condvar::wait_while`:
/// the wait atomically releases the lock and blocks the caller for as long
/// as the state says a receiver must wait — the condition is rechecked
/// under the lock after every wakeup, so spurious wakeups and lost
/// notifications are both harmless.  When the wait ends the lock is held
/// again and the condition is false, and `f` runs on that very state
/// before the lock is released; hence the contract: the state `f` saw had
/// a value queued, or no sender left alive.
#[verifier::external_body]
pub(crate) fn wait_then_update<T, R, F: FnOnce(Inner<T>) -> (Inner<T>, R)>(
    s: &Shared<T>,
    f: F,
) -> (r: R)
    requires
        forall|i: Inner<T>| #[trigger] call_requires(f, (i,)),
    ensures
        ran_on_ready_state(f, r),
{
    let guard = s.inner.lock().unwrap();
    let mut guard = s.available.wait_while(guard, |i: &mut Inner<T>| i.must_wait()).unwrap();
    let (next, r) = f(std::mem::take(&mut *guard));
    *guard = next;
    r
}

/// Relies on `std::sync::Condvar::notify_one`: wakes one thread blocked
/// in [`wait_then_update`] on the same condition variable, if any.
#[verifier::external_body]
pub(crate) fn signal<T>(s: &Shared<T>)
    opens_invariants none
    no_unwind
{
    s.available.notify_one();
}

/// Relies on `std::sync::Arc::clone`: the new handle refers to the very
/// same allocation, so as a value it is equal to the old one.
#[verifier::external_body]
pub(crate) fn clone_shared<T>(s: &std::sync::Arc<Shared<T>>) -> (r: std::sync::Arc<Shared<T>>)
    ensures
        r == *s,
{
    std::sync::Arc::clone(s)
}

} // verus!
