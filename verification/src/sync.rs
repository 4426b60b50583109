//! The primitives of `std` and `async_std` that the session core is built on.
//!
//! Verus does not look inside any of them. Each type below is declared so
//! that it can stand in fields and signatures, and each function states what
//! is taken on trust about the call in its body.

use async_std::channel::Receiver;
use async_std::channel::Sender;
use std::sync::Arc;
use std::sync::Mutex;
use std::sync::MutexGuard;
use std::task::Waker;
use vstd::prelude::*;

verus! {

/// `std::task::Waker`, carried around as an opaque value.
#[verifier::external_type_specification]
#[verifier::external_body]
pub struct ExWaker(Waker);

/// `std::sync::Mutex`, carried around as an opaque value.
#[verifier::external_type_specification]
#[verifier::external_body]
#[verifier::reject_recursive_types(T)]
pub struct ExMutex<T: ?Sized>(Mutex<T>);

/// `std::sync::MutexGuard`, carried around as an opaque value.
#[verifier::external_type_specification]
#[verifier::external_body]
#[verifier::reject_recursive_types(T)]
pub struct ExMutexGuard<'a, T: ?Sized + 'a>(MutexGuard<'a, T>);

/// `async_std::channel::Sender`, carried around as an opaque value.
#[verifier::external_type_specification]
#[verifier::external_body]
#[verifier::reject_recursive_types(T)]
pub struct ExSender<T>(Sender<T>);

/// `async_std::channel::Receiver`, carried around as an opaque value.
#[verifier::external_type_specification]
#[verifier::external_body]
#[verifier::reject_recursive_types(T)]
pub struct ExReceiver<T>(Receiver<T>);

/// Calls `std::task::Waker::wake`, which consumes the waker. The call
/// returns nothing, and nothing is claimed of the task that it wakes.
#[verifier::external_body]
pub(crate) fn wake(waker: Waker) {
    waker.wake()
}

/// Calls `Clone::clone` of `std::task::Waker`. Nothing is claimed of the
/// copy.
#[verifier::external_body]
pub(crate) fn clone_waker(waker: &Waker) -> (copy: Waker) {
    waker.clone()
}

/// Calls `std::sync::Mutex::new`. Nothing is claimed of the mutex: what it
/// holds may have been changed by another thread whenever it is locked.
#[verifier::external_body]
pub(crate) fn new_mutex<T>(value: T) -> (mutex: Mutex<T>) {
    Mutex::new(value)
}

/// Calls `std::sync::Mutex::lock`, which waits until the lock is free. Gives
/// the guard, or `None` where the mutex is poisoned. Nothing is claimed of
/// the value behind the guard.
///
/// A thread that holds the guard of a mutex must not lock it again: the
/// call would not return. Every mutex that this crate locks is a private
/// field of a type of the crate, so only the crate's functions reach it.
/// Each of them locks once, gives the guard back before it returns, and
/// between the two runs no code but its own: wakers are copied before the
/// lock is taken, and woken or dropped after it is given back.
#[verifier::external_body]
pub(crate) fn lock<'a, T>(mutex: &'a Mutex<T>) -> (guard: Option<MutexGuard<'a, T>>) {
    mutex.lock().ok()
}

/// Calls `DerefMut::deref_mut` of `std::sync::MutexGuard`, which lends the
/// value that the mutex holds. Nothing is claimed of that value.
#[verifier::external_body]
pub(crate) fn guarded<'a, 'b, T>(guard: &'a mut MutexGuard<'b, T>) -> (value: &'a mut T) {
    &mut **guard
}

/// Calls `Clone::clone` of `std::sync::Arc`, which gives another handle to
/// the same allocation: the two handles point at one value.
#[verifier::external_body]
pub(crate) fn clone_arc<T>(handle: &Arc<T>) -> (copy: Arc<T>)
    ensures
        copy == *handle,
{
    handle.clone()
}

/// Calls `async_std::channel::bounded`, which makes a channel that holds at
/// most `cap` messages and panics where `cap` is zero. Nothing is claimed
/// of the two ends.
#[verifier::external_body]
pub(crate) fn bounded<T>(cap: usize) -> (ends: (Sender<T>, Receiver<T>))
    requires
        cap > 0,
{
    async_std::channel::bounded(cap)
}

/// Calls `Clone::clone` of `async_std::channel::Sender`. A sender is a
/// counted handle to its channel and nothing else, and the copy is a handle
/// to the same channel: the two are one value.
#[verifier::external_body]
pub(crate) fn clone_sender<T>(sender: &Sender<T>) -> (copy: Sender<T>)
    ensures
        copy == *sender,
{
    sender.clone()
}

} // verus!
