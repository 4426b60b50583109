//! The correlated future: a reply slot that is written once in its life,
//! paired with the waker of the task that waits for the reply.
//!
//! [`ButtplugClientFutureState`] is the slot itself, and what is proved of a
//! future is proved of it. [`ButtplugClientFutureStateShared`] and
//! [`ButtplugClientFuture`] put the slot behind a lock so that one task can
//! fill it while another waits. The lock is private to this module and is
//! held only while the slot is read or written: a waker is copied before the
//! lock is taken, and woken or dropped after it is given back. Of a locked
//! slot nothing is known until the lock is held, so the functions that take
//! the lock promise only what holds of every slot they may find.

use crate::errors::ButtplugClientFault;
use crate::sync::clone_arc;
use crate::sync::clone_waker;
use crate::sync::guarded;
use crate::sync::lock;
use crate::sync::new_mutex;
use crate::sync::wake;
use std::sync::Arc;
use std::sync::Mutex;
use std::task::Waker;
use vstd::prelude::*;

verus! {

/// What a reply slot holds.
pub struct FutureStateView<T> {
    /// The reply, from the moment it is stored until a poll takes it.
    pub reply: Option<T>,
    /// The waker of the task that polled last and found no reply.
    pub waker: Option<Waker>,
    /// Whether a reply was ever stored. A slot takes one reply in its life.
    pub resolved: bool,
}

impl<T> FutureStateView<T> {
    /// The slot as it is made: no reply, nobody waiting, never resolved.
    pub open spec fn empty() -> Self {
        FutureStateView { reply: None, waker: None, resolved: false }
    }

    /// The slot after `reply` was stored in it and its waker taken out to be
    /// woken.
    pub open spec fn resolved_with(self, reply: T) -> Self {
        FutureStateView { reply: Some(reply), waker: None, resolved: true }
    }

    /// The slot after `reply` was offered to it: a slot that was never
    /// resolved is resolved with it, any other is left as it is.
    pub open spec fn offered(self, reply: T) -> Self {
        if self.resolved {
            self
        } else {
            self.resolved_with(reply)
        }
    }

    /// What one poll of the slot hands to the awaiter.
    pub open spec fn yielded(self) -> Option<T> {
        self.reply
    }

    /// The slot after one poll by the task that owns `waker`: a reply is
    /// taken out, and where there was none `waker` takes the place of
    /// whatever waker was kept.
    pub open spec fn polled_by(self, waker: Waker) -> Self {
        FutureStateView {
            reply: None,
            waker: if self.reply is None {
                Some(waker)
            } else {
                self.waker
            },
            resolved: self.resolved,
        }
    }

    /// The waker that a poll by the owner of `waker` leaves without a use:
    /// `waker` itself where the reply was there, else the waker it replaced.
    pub open spec fn spare_after_poll(self, waker: Waker) -> Option<Waker> {
        if self.reply is None {
            self.waker
        } else {
            Some(waker)
        }
    }
}

/// The reply slot of one request, with the waker of the task that awaits it.
#[derive(Debug, Clone)]
pub struct ButtplugClientFutureState<T> {
    reply_msg: Option<T>,
    waker: Option<Waker>,
    resolved: bool,
}

impl<T> View for ButtplugClientFutureState<T> {
    type V = FutureStateView<T>;

    closed spec fn view(&self) -> FutureStateView<T> {
        FutureStateView { reply: self.reply_msg, waker: self.waker, resolved: self.resolved }
    }
}

impl<T> Default for ButtplugClientFutureState<T> {
    fn default() -> (state: Self)
        ensures
            state@ == FutureStateView::<T>::empty(),
    {
        ButtplugClientFutureState::<T> { reply_msg: None, waker: None, resolved: false }
    }
}

impl<T> ButtplugClientFutureState<T> {
    /// Whether the slot holds a reply that no poll has taken yet.
    pub fn has_reply(&self) -> (full: bool)
        ensures
            full == self@.reply is Some,
    {
        self.reply_msg.is_some()
    }

    /// Whether a reply was ever stored in the slot.
    pub fn is_resolved(&self) -> (resolved: bool)
        ensures
            resolved == self@.resolved,
    {
        self.resolved
    }

    /// Stores the reply and hands out the waker of the waiting task, which
    /// the caller has to wake.
    pub fn store_reply(&mut self, reply: T) -> (waiter: Option<Waker>)
        requires
            !old(self)@.resolved,
        ensures
            waiter == old(self)@.waker,
            final(self)@ == old(self)@.resolved_with(reply),
    {
        self.resolved = true;
        self.reply_msg = Some(reply);
        self.waker.take()
    }

    /// Stores the reply and wakes the task that waits for it.
    ///
    /// A slot takes one reply in its life, also after a poll has emptied it.
    /// Offering a second one is a fault of the caller, so the slot must never
    /// have been resolved; [`Self::try_set_reply`] is for callers who cannot
    /// know. The waker that is woken is the one that [`Self::store_reply`]
    /// hands out.
    pub fn set_reply(&mut self, reply: T)
        requires
            !old(self)@.resolved,
        ensures
            final(self)@ == old(self)@.resolved_with(reply),
    {
        match self.store_reply(reply) {
            Some(waiter) => wake(waiter),
            None => {},
        }
    }

    /// Offers the reply: a slot that was never resolved stores it and hands
    /// out the waker of the waiting task, which the caller has to wake; any
    /// other slot stays as it is and hands the reply back.
    pub fn offer(&mut self, reply: T) -> (outcome: Result<Option<Waker>, T>)
        ensures
            final(self)@ == old(self)@.offered(reply),
            old(self)@.resolved ==> outcome == Err::<Option<Waker>, T>(reply) && *final(self)
                == *old(self),
            !old(self)@.resolved ==> outcome == Ok::<Option<Waker>, T>(old(self)@.waker),
    {
        if self.resolved {
            Err(reply)
        } else {
            Ok(self.store_reply(reply))
        }
    }

    /// Stores the reply and wakes the waiting task if the slot was never
    /// resolved, and refuses the reply otherwise, leaving the slot as it was.
    pub fn try_set_reply(&mut self, reply: T) -> (outcome: Result<(), ButtplugClientFault>)
        ensures
            outcome is Ok <==> !old(self)@.resolved,
            outcome matches Err(fault) ==> fault == ButtplugClientFault::ReplyAlreadySet,
            outcome is Err ==> *final(self) == *old(self),
            final(self)@ == old(self)@.offered(reply),
    {
        settle_offer(Some(self.offer(reply)))
    }

    /// One poll by the task that owns `waker`: takes the reply if there is
    /// one, and otherwise keeps `waker`, in place of any waker kept before,
    /// to be woken when the reply is stored. The waker that is left without
    /// a use is handed back.
    pub fn poll_with(&mut self, waker: Waker) -> (outcome: (Option<T>, Option<Waker>))
        ensures
            outcome.0 == old(self)@.yielded(),
            outcome.1 == old(self)@.spare_after_poll(waker),
            final(self)@ == old(self)@.polled_by(waker),
    {
        if self.reply_msg.is_some() {
            (self.reply_msg.take(), Some(waker))
        } else {
            let earlier = self.waker.take();
            self.waker = Some(waker);
            (None, earlier)
        }
    }

    /// One poll on behalf of the task that owns `waker`: takes the reply if
    /// there is one, and otherwise keeps a copy of `waker`, as
    /// [`Self::poll_with`] does.
    pub fn poll(&mut self, waker: &Waker) -> (reply: Option<T>)
        ensures
            reply == old(self)@.yielded(),
            final(self)@.reply is None,
            final(self)@.resolved == old(self)@.resolved,
            old(self)@.reply is Some ==> final(self)@.waker == old(self)@.waker,
            old(self)@.reply is None ==> final(self)@.waker is Some,
    {
        let (reply, _) = self.poll_with(clone_waker(waker));
        reply
    }
}

/// What an offer to a slot behind a lock comes to, once the lock is given
/// back: `offered` is `None` where the lock was poisoned, and otherwise what
/// [`ButtplugClientFutureState::offer`] answered. The waiting task of a slot
/// that took the reply is woken here.
pub fn settle_offer<T>(offered: Option<Result<Option<Waker>, T>>) -> (outcome: Result<
    (),
    ButtplugClientFault,
>)
    ensures
        offered is None ==> outcome == Err::<(), ButtplugClientFault>(
            ButtplugClientFault::LockPoisoned,
        ),
        offered matches Some(Err(_)) ==> outcome == Err::<(), ButtplugClientFault>(
            ButtplugClientFault::ReplyAlreadySet,
        ),
        offered matches Some(Ok(_)) ==> outcome is Ok,
{
    match offered {
        None => Err(ButtplugClientFault::LockPoisoned),
        Some(Err(_)) => Err(ButtplugClientFault::ReplyAlreadySet),
        Some(Ok(waiter)) => {
            match waiter {
                Some(waiter) => wake(waiter),
                None => {},
            }
            Ok(())
        },
    }
}

/// What a poll of a slot behind a lock comes to, once the lock is given
/// back: `polled` is `None` where the lock was poisoned, and otherwise what
/// [`ButtplugClientFutureState::poll_with`] answered.
pub fn settle_poll<T>(polled: Option<(Option<T>, Option<Waker>)>) -> (outcome: Result<
    Option<T>,
    ButtplugClientFault,
>)
    ensures
        match polled {
            None => outcome == Err::<Option<T>, ButtplugClientFault>(
                ButtplugClientFault::LockPoisoned,
            ),
            Some(found) => outcome == Ok::<Option<T>, ButtplugClientFault>(found.0),
        },
{
    match polled {
        None => Err(ButtplugClientFault::LockPoisoned),
        Some(found) => Ok(found.0),
    }
}

/// A handle to a reply slot behind a lock, shared by the task that awaits
/// the reply and the task that brings it.
#[derive(Debug)]
#[verifier::reject_recursive_types(T)]
pub struct ButtplugClientFutureStateShared<T> {
    slot: Arc<Mutex<ButtplugClientFutureState<T>>>,
}

impl<T> Clone for ButtplugClientFutureStateShared<T> {
    /// Another handle to the same slot.
    fn clone(&self) -> (copy: Self)
        ensures
            copy == *self,
    {
        ButtplugClientFutureStateShared { slot: clone_arc(&self.slot) }
    }
}

impl<T> Default for ButtplugClientFutureStateShared<T> {
    /// A handle to a fresh slot.
    fn default() -> Self {
        ButtplugClientFutureStateShared {
            slot: Arc::new(new_mutex(ButtplugClientFutureState::default())),
        }
    }
}

/// Offers `reply` to a shared slot: takes the lock, stores the reply if the
/// slot was never resolved, gives the lock back and wakes the awaiter.
///
/// The slot may have been resolved by anyone who holds a handle, so whether
/// the reply is taken is known only afterwards: a slot that was resolved
/// refuses this one, and a poisoned lock is reported without touching the
/// slot. What is done to the slot once the lock is held is
/// [`ButtplugClientFutureState::offer`], and what the answer comes to is
/// [`settle_offer`].
pub fn set_shared_reply<T>(state: &ButtplugClientFutureStateShared<T>, reply: T) -> (outcome:
    Result<(), ButtplugClientFault>)
    ensures
        outcome matches Err(fault) ==> fault == ButtplugClientFault::ReplyAlreadySet || fault
            == ButtplugClientFault::LockPoisoned,
{
    let offered = match lock(&*state.slot) {
        Some(mut guard) => Some(guarded(&mut guard).offer(reply)),
        None => None,
    };
    settle_offer(offered)
}

/// The awaiting side of a correlated future.
#[derive(Debug)]
#[verifier::reject_recursive_types(T)]
pub struct ButtplugClientFuture<T> {
    waker_state: ButtplugClientFutureStateShared<T>,
}

impl<T> Default for ButtplugClientFuture<T> {
    /// A future over a fresh slot.
    fn default() -> Self {
        ButtplugClientFuture::<T> { waker_state: ButtplugClientFutureStateShared::default() }
    }
}

impl<T> ButtplugClientFuture<T> {
    /// The slot that this future waits on.
    pub closed spec fn state(&self) -> ButtplugClientFutureStateShared<T> {
        self.waker_state
    }

    /// Another handle to the slot, for the task that will bring the reply.
    pub fn get_state_clone(&self) -> (state: ButtplugClientFutureStateShared<T>)
        ensures
            state == self.state(),
    {
        self.waker_state.clone()
    }

    /// One poll of the future: `Ok(Some(reply))` when the reply has arrived,
    /// `Ok(None)` when the task has been registered to be woken.
    ///
    /// What is done to the slot once the lock is held is
    /// [`ButtplugClientFutureState::poll_with`], and what the answer comes to
    /// is [`settle_poll`].
    pub fn poll(&self, waker: &Waker) -> (outcome: Result<Option<T>, ButtplugClientFault>)
        ensures
            outcome matches Err(fault) ==> fault == ButtplugClientFault::LockPoisoned,
    {
        let copy = clone_waker(waker);
        let polled = match lock(&*self.waker_state.slot) {
            Some(mut guard) => Some(guarded(&mut guard).poll_with(copy)),
            None => None,
        };
        settle_poll(polled)
    }
}

/// A reply that is stored in a slot that was never resolved is handed out by
/// the next poll, whether the awaiter comes after the reply or was waiting
/// before it. In the second case the waker that the awaiter left is the one
/// that comes out to be woken when the reply is stored. The poll empties
/// the slot, so the reply is handed out once.
pub proof fn lemma_reply_is_yielded_once<T>(
    slot: FutureStateView<T>,
    reply: T,
    early: Waker,
    late: Waker,
)
    requires
        !slot.resolved,
        slot.reply is None,
    ensures
        slot.resolved_with(reply).yielded() == Some(reply),
        slot.polled_by(early).waker == Some(early),
        slot.polled_by(early).offered(reply) == slot.polled_by(early).resolved_with(reply),
        slot.polled_by(early).resolved_with(reply).waker is None,
        slot.polled_by(early).resolved_with(reply).yielded() == Some(reply),
        slot.resolved_with(reply).polled_by(late).yielded() is None,
{
}

/// A slot that has been resolved refuses every further reply, before and
/// after a poll has taken the first one: a second offer changes nothing, and
/// the second reply is never handed out.
pub proof fn lemma_second_reply_is_refused<T>(
    slot: FutureStateView<T>,
    first: T,
    second: T,
    waker: Waker,
)
    ensures
        slot.resolved_with(first).resolved,
        slot.resolved_with(first).offered(second) == slot.resolved_with(first),
        slot.resolved_with(first).polled_by(waker).resolved,
        slot.resolved_with(first).polled_by(waker).offered(second) == slot.resolved_with(
            first,
        ).polled_by(waker),
        slot.resolved_with(first).polled_by(waker).offered(second).yielded() is None,
        slot.offered(first).offered(second) == slot.offered(first),
{
}

} // verus!
