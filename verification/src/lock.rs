//! The lock under which all calls into libutp are made.
use parking_lot::ReentrantMutex;
use vstd::prelude::*;

verus! {

/// `lock_api::ReentrantMutex`, which `parking_lot::ReentrantMutex` is an
/// instance of: a lock that a thread may take again while it holds it.
#[verifier::external_type_specification]
#[verifier::external_body]
#[verifier::reject_recursive_types(R)]
#[verifier::reject_recursive_types(G)]
#[verifier::reject_recursive_types(T)]
pub struct ExReentrantMutex<R, G, T: ?Sized>(parking_lot::lock_api::ReentrantMutex<R, G, T>);

/// `parking_lot::RawMutex`, the lock inside a `ReentrantMutex`.
#[verifier::external_type_specification]
#[verifier::external_body]
pub struct ExRawMutex(parking_lot::RawMutex);

/// `parking_lot::RawThreadId`, which tells a `ReentrantMutex` who holds it.
#[verifier::external_type_specification]
#[verifier::external_body]
pub struct ExRawThreadId(parking_lot::RawThreadId);

/// `ReentrantMutex::lock`: waits until no other thread holds the lock and gives
/// the guard that holds it until it is dropped. Nothing is claimed of the guard,
/// which has no content: that no other thread holds the lock meanwhile is a fact
/// about the other threads, not about a value. The call does not return while
/// another thread holds the lock, and panics only if this thread holds it
/// `usize::MAX` times over.
#[verifier::external_body]
fn acquire<'a>(lock: &'a ReentrantMutex<()>) -> (guard: impl Sized + 'a) {
    lock.lock()
}

/// Calls `f` while the lock is held and gives what it returns. `f` may itself
/// call this function with the same lock.
pub fn with_global_lock<R>(lock: &ReentrantMutex<()>, f: impl FnOnce() -> R) -> (result: R)
    requires
        call_requires(f, ()),
    ensures
        call_ensures(f, (), result),
{
    let _guard = acquire(lock);
    f()
}

} // verus!
