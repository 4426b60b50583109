use buttplug::errors::ButtplugClientFault;
use buttplug::future::set_shared_reply;
use buttplug::future::settle_offer;
use buttplug::future::settle_poll;
use buttplug::future::ButtplugClientFuture;
use buttplug::future::ButtplugClientFutureState;
use std::sync::atomic::AtomicUsize;
use std::sync::atomic::Ordering;
use std::sync::Arc;
use std::task::Wake;
use std::task::Waker;

struct CountingWaker {
    woken: AtomicUsize,
}

impl Wake for CountingWaker {
    fn wake(self: Arc<Self>) {
        self.woken.fetch_add(1, Ordering::SeqCst);
    }
}

fn counting_waker() -> (Arc<CountingWaker>, Waker) {
    let counter = Arc::new(CountingWaker { woken: AtomicUsize::new(0) });
    let waker = Waker::from(counter.clone());
    (counter, waker)
}

fn woken(counter: &Arc<CountingWaker>) -> usize {
    counter.woken.load(Ordering::SeqCst)
}

#[test]
fn reply_set_before_poll_is_yielded() {
    let (_, waker) = counting_waker();
    let mut state: ButtplugClientFutureState<u32> = ButtplugClientFutureState::default();
    state.set_reply(17);
    assert_eq!(state.poll(&waker), Some(17));
}

#[test]
fn has_reply_follows_the_slot() {
    let (_, waker) = counting_waker();
    let mut state: ButtplugClientFutureState<u32> = ButtplugClientFutureState::default();
    assert!(!state.has_reply());
    assert!(!state.is_resolved());
    state.set_reply(3);
    assert!(state.has_reply());
    assert!(state.is_resolved());
    assert_eq!(state.poll(&waker), Some(3));
    assert!(!state.has_reply());
    assert!(state.is_resolved());
}

#[test]
fn reply_is_yielded_once() {
    let (_, waker) = counting_waker();
    let mut state: ButtplugClientFutureState<u32> = ButtplugClientFutureState::default();
    state.set_reply(17);
    assert_eq!(state.poll(&waker), Some(17));
    assert_eq!(state.poll(&waker), None);
}

#[test]
fn poll_of_empty_state_is_pending() {
    let (counter, waker) = counting_waker();
    let mut state: ButtplugClientFutureState<u32> = ButtplugClientFutureState::default();
    assert_eq!(state.poll(&waker), None);
    assert_eq!(woken(&counter), 0);
}

#[test]
fn set_reply_wakes_the_suspended_awaiter() {
    let (counter, waker) = counting_waker();
    let mut state: ButtplugClientFutureState<u32> = ButtplugClientFutureState::default();
    assert_eq!(state.poll(&waker), None);
    state.set_reply(5);
    assert_eq!(woken(&counter), 1);
    assert_eq!(state.poll(&waker), Some(5));
    assert_eq!(woken(&counter), 1);
}

#[test]
fn set_reply_wakes_the_task_that_polled_last() {
    let (first_counter, first) = counting_waker();
    let (last_counter, last) = counting_waker();
    let mut state: ButtplugClientFutureState<u32> = ButtplugClientFutureState::default();
    assert_eq!(state.poll(&first), None);
    assert_eq!(state.poll(&last), None);
    state.set_reply(5);
    assert_eq!(woken(&first_counter), 0);
    assert_eq!(woken(&last_counter), 1);
}

#[test]
fn set_reply_without_awaiter_wakes_nobody() {
    let (counter, waker) = counting_waker();
    let mut state: ButtplugClientFutureState<u32> = ButtplugClientFutureState::default();
    state.set_reply(5);
    assert_eq!(woken(&counter), 0);
    assert_eq!(state.poll(&waker), Some(5));
}

#[test]
fn store_reply_hands_out_the_kept_waker() {
    let (counter, waker) = counting_waker();
    let (_, other) = counting_waker();
    let mut state: ButtplugClientFutureState<u32> = ButtplugClientFutureState::default();
    let (reply, spare) = state.poll_with(waker.clone());
    assert_eq!(reply, None);
    assert!(spare.is_none());
    let waiter = state.store_reply(8);
    assert_eq!(woken(&counter), 0);
    match waiter {
        Some(waiter) => {
            assert!(waiter.will_wake(&waker));
            assert!(!waiter.will_wake(&other));
        }
        None => panic!("the kept waker did not come out"),
    }
    assert!(state.has_reply());
}

#[test]
fn store_reply_without_awaiter_hands_out_nothing() {
    let mut state: ButtplugClientFutureState<u32> = ButtplugClientFutureState::default();
    assert!(state.store_reply(8).is_none());
    assert!(state.has_reply());
}

#[test]
fn poll_with_hands_back_the_waker_it_does_not_keep() {
    let (_, early) = counting_waker();
    let (_, late) = counting_waker();
    let mut state: ButtplugClientFutureState<u32> = ButtplugClientFutureState::default();
    let (reply, spare) = state.poll_with(early.clone());
    assert_eq!(reply, None);
    assert!(spare.is_none());
    let (reply, spare) = state.poll_with(late.clone());
    assert_eq!(reply, None);
    assert!(spare.expect("the earlier waker did not come back").will_wake(&early));
    let waiter = state.store_reply(1);
    assert!(waiter.expect("no waker was kept").will_wake(&late));
    let (reply, spare) = state.poll_with(early.clone());
    assert_eq!(reply, Some(1));
    assert!(spare.expect("the unused waker did not come back").will_wake(&early));
}

#[test]
fn offer_stores_once_and_hands_a_second_reply_back() {
    let (_, waker) = counting_waker();
    let mut state: ButtplugClientFutureState<u32> = ButtplugClientFutureState::default();
    assert_eq!(state.poll(&waker), None);
    match state.offer(1) {
        Ok(Some(waiter)) => assert!(waiter.will_wake(&waker)),
        _ => panic!("the first reply was not stored"),
    }
    assert!(matches!(state.offer(2), Err(2)));
    assert_eq!(state.poll(&waker), Some(1));
    assert!(matches!(state.offer(3), Err(3)));
    assert_eq!(state.poll(&waker), None);
}

#[test]
fn second_reply_is_refused_and_first_kept() {
    let (_, waker) = counting_waker();
    let mut state: ButtplugClientFutureState<u32> = ButtplugClientFutureState::default();
    assert_eq!(state.try_set_reply(1), Ok(()));
    assert_eq!(state.try_set_reply(2), Err(ButtplugClientFault::ReplyAlreadySet));
    assert_eq!(state.poll(&waker), Some(1));
}

#[test]
fn second_reply_is_refused_after_the_first_was_taken() {
    let (counter, waker) = counting_waker();
    let mut state: ButtplugClientFutureState<u32> = ButtplugClientFutureState::default();
    assert_eq!(state.try_set_reply(1), Ok(()));
    assert_eq!(state.poll(&waker), Some(1));
    assert_eq!(state.poll(&waker), None);
    assert_eq!(state.try_set_reply(2), Err(ButtplugClientFault::ReplyAlreadySet));
    assert_eq!(woken(&counter), 0);
    assert_eq!(state.poll(&waker), None);
}

#[test]
fn settle_offer_names_the_fault_and_wakes() {
    let (counter, waker) = counting_waker();
    assert_eq!(settle_offer::<u8>(None), Err(ButtplugClientFault::LockPoisoned));
    assert_eq!(settle_offer(Some(Err(4u8))), Err(ButtplugClientFault::ReplyAlreadySet));
    assert_eq!(settle_offer::<u8>(Some(Ok(None))), Ok(()));
    assert_eq!(woken(&counter), 0);
    assert_eq!(settle_offer::<u8>(Some(Ok(Some(waker)))), Ok(()));
    assert_eq!(woken(&counter), 1);
}

#[test]
fn settle_poll_names_the_fault_and_passes_the_reply() {
    let (_, waker) = counting_waker();
    assert_eq!(settle_poll::<u8>(None), Err(ButtplugClientFault::LockPoisoned));
    assert_eq!(settle_poll(Some((Some(7u8), Some(waker)))), Ok(Some(7)));
    assert_eq!(settle_poll::<u8>(Some((None, None))), Ok(None));
}

#[test]
fn future_yields_what_the_shared_state_was_given() {
    let (_, waker) = counting_waker();
    let future: ButtplugClientFuture<String> = ButtplugClientFuture::default();
    let state = future.get_state_clone();
    assert_eq!(future.poll(&waker), Ok(None));
    assert_eq!(set_shared_reply(&state, String::from("pong")), Ok(()));
    assert_eq!(future.poll(&waker), Ok(Some(String::from("pong"))));
    assert_eq!(future.poll(&waker), Ok(None));
}

#[test]
fn state_clone_is_the_same_slot() {
    let (_, waker) = counting_waker();
    let future: ButtplugClientFuture<u8> = ButtplugClientFuture::default();
    let first = future.get_state_clone();
    let second = first.clone();
    assert_eq!(set_shared_reply(&second, 9), Ok(()));
    assert_eq!(set_shared_reply(&first, 10), Err(ButtplugClientFault::ReplyAlreadySet));
    assert_eq!(future.poll(&waker), Ok(Some(9)));
}

#[test]
fn shared_state_wakes_the_awaiter_from_another_task() {
    let (counter, waker) = counting_waker();
    let future: ButtplugClientFuture<u64> = ButtplugClientFuture::default();
    let state = future.get_state_clone();
    assert_eq!(future.poll(&waker), Ok(None));
    let producer = async_std::task::spawn(async move { set_shared_reply(&state, 99) });
    assert_eq!(async_std::task::block_on(producer), Ok(()));
    assert_eq!(woken(&counter), 1);
    assert_eq!(future.poll(&waker), Ok(Some(99)));
}

#[test]
fn shared_state_refuses_a_second_reply() {
    let (_, waker) = counting_waker();
    let future: ButtplugClientFuture<u8> = ButtplugClientFuture::default();
    let state = future.get_state_clone();
    assert_eq!(set_shared_reply(&state, 1), Ok(()));
    assert_eq!(set_shared_reply(&state, 2), Err(ButtplugClientFault::ReplyAlreadySet));
    assert_eq!(future.poll(&waker), Ok(Some(1)));
    assert_eq!(set_shared_reply(&state, 3), Err(ButtplugClientFault::ReplyAlreadySet));
    assert_eq!(future.poll(&waker), Ok(None));
}

struct PollingWaker {
    future: ButtplugClientFuture<u8>,
    found: AtomicUsize,
}

impl Wake for PollingWaker {
    fn wake(self: Arc<Self>) {
        let idle = Waker::from(Arc::new(CountingWaker { woken: AtomicUsize::new(0) }));
        if let Ok(Some(reply)) = self.future.poll(&idle) {
            self.found.store(usize::from(reply), Ordering::SeqCst);
        }
    }
}

#[test]
fn waker_that_polls_in_place_finds_the_reply() {
    let future: ButtplugClientFuture<u8> = ButtplugClientFuture::default();
    let state = future.get_state_clone();
    let polling = Arc::new(PollingWaker { future, found: AtomicUsize::new(0) });
    let waker = Waker::from(polling.clone());
    assert_eq!(polling.future.poll(&waker), Ok(None));
    assert_eq!(set_shared_reply(&state, 42), Ok(()));
    assert_eq!(polling.found.load(Ordering::SeqCst), 42);
}

#[test]
fn fault_messages() {
    assert_eq!(
        ButtplugClientFault::ReplyAlreadySet.message(),
        "set_reply_msg called multiple times on the same future."
    );
    assert_eq!(
        ButtplugClientFault::UnhandledConnectorMessage.message(),
        "Got connector message type we don't know how to handle!"
    );
    assert_eq!(ButtplugClientFault::UnhandledClientMessage.message(), "Client message not handled!");
    assert_eq!(ButtplugClientFault::DeviceQueueClosed.message(), "We should never get here.");
    assert_eq!(
        ButtplugClientFault::UnknownDevice.message(),
        "Got removal of a device that is not registered."
    );
    assert_eq!(ButtplugClientFault::LockPoisoned.message(), "The lock of a future state is poisoned.");
}
