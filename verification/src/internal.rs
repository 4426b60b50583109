//! The session loop of a client, as a step function.
//!
//! A session waits for its first command, which must bring the connector,
//! and is then fed what arrives on three queues: commands of the client,
//! notifications of the connector, and commands of device handles. Waiting
//! on the queues and talking to the connector is the caller's part. The
//! session decides: each function here takes what the caller received,
//! updates the device registry, and returns what the caller has to do next.

use crate::device::descriptions;
use crate::device::ButtplugClientDevice;
use crate::errors::ButtplugClientConnectorError;
use crate::errors::ButtplugClientError;
use crate::errors::ButtplugClientFault;
use crate::future::set_shared_reply;
use crate::future::ButtplugClientFuture;
use crate::future::ButtplugClientFutureState;
use crate::future::ButtplugClientFutureStateShared;
use crate::messages::infos;
use crate::messages::ButtplugMessageUnion;
use crate::messages::DeviceAdded;
use crate::messages::DeviceInfoView;
use crate::messages::DeviceList;
use crate::messages::DeviceMessageInfo;
use crate::messages::DeviceRemoved;
use crate::registry::distinct_indices;
use crate::registry::grown;
use crate::registry::grown_each;
use crate::registry::lemma_bulk_registration;
use crate::registry::lemma_grown_by_none;
use crate::registry::lemma_grown_by_one_more;
use crate::registry::lemma_listed_between_add_and_remove;
use crate::registry::lists;
use crate::registry::registered;
use crate::registry::registered_all;
use crate::registry::subscribed;
use crate::registry::unregistered;
use crate::registry::DeviceMap;
use crate::registry::Subscriptions;
use crate::sync::bounded;
use crate::sync::clone_sender;
use async_std::channel::Receiver;
use async_std::channel::Sender;
use std::collections::HashMap;
use vstd::prelude::*;
use vstd::std_specs::hash::spec_keys_iter;
use vstd::std_specs::iter::IteratorSpec;
use vstd::string::StringExecFns;

verus! {

/// The reply slot of a protocol message.
pub type ButtplugClientMessageState = ButtplugClientFutureState<ButtplugMessageUnion>;

/// The shared reply slot of a protocol message.
pub type ButtplugClientMessageStateShared = ButtplugClientFutureStateShared<ButtplugMessageUnion>;

/// The future of the reply to a protocol message.
pub type ButtplugClientMessageFuture = ButtplugClientFuture<ButtplugMessageUnion>;

/// An outbound message with the slot that its reply goes to.
pub type ButtplugClientMessageFuturePair = (ButtplugMessageUnion, ButtplugClientMessageStateShared);

/// The shared slot for the outcome of a connect or a disconnect.
pub type ButtplugClientConnectionStateShared = ButtplugClientFutureStateShared<
    Result<(), ButtplugClientConnectorError>,
>;

/// The shared slot for the answer to a request for the devices.
pub type ButtplugClientDeviceListStateShared = ButtplugClientFutureStateShared<
    Vec<ButtplugClientDevice>,
>;

/// The sending end of the event channel of a device handle.
pub type ButtplugClientDeviceEventSender = Sender<ButtplugClientDeviceEvent>;

/// The number of messages that the queue of device commands holds, and that
/// the event channel of a device handle holds, before a sender has to wait.
pub const CHANNEL_CAPACITY: usize = 256;

/// A command of the client to the session. `C` is the connector.
pub enum ButtplugClientMessage<C> {
    /// Connect through the connector, and put the outcome into the slot.
    Connect(C, ButtplugClientConnectionStateShared),
    /// Disconnect, and put the outcome into the slot.
    Disconnect(ButtplugClientConnectionStateShared),
    /// Register the devices of the list and announce each of them.
    HandleDeviceList(DeviceList),
    /// Put a fresh handle for every registered device into the slot.
    RequestDeviceList(ButtplugClientDeviceListStateShared),
    /// Send the message through the connector, which fills the slot.
    Message(ButtplugClientMessageFuturePair),
}

/// What a device handle is told on its event channel.
#[derive(Debug)]
pub enum ButtplugClientDeviceEvent {
    DeviceDisconnect,
    ClientDisconnect,
    Message(ButtplugMessageUnion),
}

/// What the client is told by the session.
#[derive(Debug)]
pub enum ButtplugClientEvent {
    DeviceAdded(ButtplugClientDevice),
    DeviceRemoved(DeviceMessageInfo),
}

/// What one wait on the three queues of a running session brought.
pub enum StreamReturn<C> {
    ConnectorMessage(ButtplugMessageUnion),
    ClientMessage(ButtplugClientMessage<C>),
    DeviceMessage(ButtplugClientMessageFuturePair),
    Disconnect,
}

/// What the caller has to do after a step of the session.
pub enum ButtplugClientLoopAction {
    /// Hand the events to the client, first to last, then wait again.
    Emit(Vec<ButtplugClientEvent>),
    /// A device is gone: tell each of its subscribers `DeviceDisconnect`,
    /// first to last, and drop the senders, then hand the event to the
    /// client and wait again.
    Removed(Vec<ButtplugClientDeviceEventSender>, ButtplugClientEvent),
    /// Offer the handles to the slot with [`set_shared_reply`], then wait
    /// again.
    Reply(ButtplugClientDeviceListStateShared, Vec<ButtplugClientDevice>),
    /// Send the message through the connector together with the slot for
    /// its reply, then wait again.
    Send(ButtplugMessageUnion, ButtplugClientMessageStateShared),
    /// Disconnect the connector, offer the outcome to the slot with
    /// [`set_shared_reply`], and leave the loop whatever the outcome was.
    Disconnect(ButtplugClientConnectionStateShared),
    /// Leave the loop.
    Stop,
}

/// Whether `events` announce the devices `devices` of a session whose queue
/// of device commands has the sender `queue`: one `DeviceAdded` for each
/// device, in order, with a handle that describes the device and whose
/// commands go into that queue.
pub open spec fn announces(
    events: Seq<ButtplugClientEvent>,
    devices: Seq<DeviceInfoView>,
    queue: Sender<ButtplugClientMessageFuturePair>,
) -> bool {
    &&& events.len() == devices.len()
    &&& forall|i: int|
        0 <= i < events.len() ==> (#[trigger] events[i] matches ButtplugClientEvent::DeviceAdded(
            handle,
        ) && handle.describes() == devices[i] && handle.message_sender == queue)
}

/// A connected session: the device registry, the subscriptions of the
/// device handles, and the two ends of the queue of device commands.
pub struct ButtplugClientEventLoop {
    devices: HashMap<u32, DeviceMessageInfo>,
    device_message_sender: Sender<ButtplugClientMessageFuturePair>,
    device_message_receiver: Receiver<ButtplugClientMessageFuturePair>,
    device_event_senders: HashMap<u32, Vec<ButtplugClientDeviceEventSender>>,
    terminated: bool,
}

impl ButtplugClientEventLoop {
    /// The registered devices.
    pub closed spec fn devices(&self) -> DeviceMap {
        self.devices@.map_values(|info: DeviceMessageInfo| info@)
    }

    /// For each device, the sending ends of the event channels of its
    /// handles, in the order in which the handles were made.
    pub closed spec fn subscribers(&self) -> Subscriptions<ButtplugClientDeviceEventSender> {
        self.device_event_senders@.map_values(
            |senders: Vec<ButtplugClientDeviceEventSender>| senders@,
        )
    }

    /// Whether the session has ended. A session that has ended stays so.
    pub closed spec fn is_terminated(&self) -> bool {
        self.terminated
    }

    /// The receiving end of the queue of device commands that the session
    /// opened when it was connected.
    pub closed spec fn device_queue(&self) -> Receiver<ButtplugClientMessageFuturePair> {
        self.device_message_receiver
    }

    /// The sending end of the queue of device commands, which every device
    /// handle gets a copy of.
    pub closed spec fn device_sender(&self) -> Sender<ButtplugClientMessageFuturePair> {
        self.device_message_sender
    }

    /// The invariant of a session: every device is registered under its own
    /// index, the devices that have subscribers are the registered ones,
    /// each of them has at least one, and a session that has ended holds no
    /// device.
    pub open spec fn wf(&self) -> bool {
        &&& self.devices().dom().finite()
        &&& forall|index: u32| #[trigger]
            self.devices().contains_key(index) ==> self.devices()[index].device_index == index
        &&& self.subscribers().dom() == self.devices().dom()
        &&& forall|index: u32| #[trigger]
            self.subscribers().contains_key(index) ==> self.subscribers()[index].len() >= 1
        &&& self.is_terminated() ==> self.devices() == Map::<u32, DeviceInfoView>::empty()
    }

    /// Whether `self` has the registry, the subscriptions and the state of
    /// `before`.
    pub open spec fn unchanged_from(&self, before: &Self) -> bool {
        &&& self.devices() == before.devices()
        &&& self.subscribers() == before.subscribers()
        &&& self.is_terminated() == before.is_terminated()
    }

    /// Whether the session has ended and holds nothing any more.
    pub open spec fn ended(&self) -> bool {
        &&& self.is_terminated()
        &&& self.devices() == Map::<u32, DeviceInfoView>::empty()
        &&& self.subscribers() == Map::<u32, Seq<ButtplugClientDeviceEventSender>>::empty()
    }

    /// Whether `self` has the two ends of the queue of device commands that
    /// `before` has. No step of a session replaces them.
    pub open spec fn same_queue_as(&self, before: &Self) -> bool {
        &&& self.device_queue() == before.device_queue()
        &&& self.device_sender() == before.device_sender()
    }
}

/// The reply that goes to the client after the connector's attempt to
/// connect: success as it is, and a failure with the connector's message
/// behind the words "Cannot connect to server: ".
pub fn connect_reply(outcome: &Result<(), ButtplugClientConnectorError>) -> (reply: Result<
    (),
    ButtplugClientConnectorError,
>)
    ensures
        outcome is Ok ==> reply is Ok,
        outcome matches Err(error) ==> reply matches Err(told) && told.message@
            == "Cannot connect to server: "@ + error.message@,
{
    match outcome {
        Ok(()) => Ok(()),
        Err(error) => {
            let text = String::from_str("Cannot connect to server: ").concat(
                error.message.as_str(),
            );
            Err(ButtplugClientConnectorError { message: text })
        },
    }
}

impl ButtplugClientEventLoop {
    /// The first decision of a session, on the first thing that the queue of
    /// client commands brought (`None`: the queue was closed).
    ///
    /// Only `Connect` starts a session: its connector and its slot are
    /// handed back so that the caller can connect and report the outcome to
    /// [`Self::connected`]. Anything else ends the attempt with an error,
    /// and no session comes to be.
    pub fn wait_for_connector<C>(first: Option<ButtplugClientMessage<C>>) -> (start: Result<
        (C, ButtplugClientConnectionStateShared),
        ButtplugClientConnectorError,
    >)
        ensures
            match first {
                Some(ButtplugClientMessage::Connect(connector, state)) => start == Ok::<
                    (C, ButtplugClientConnectionStateShared),
                    ButtplugClientConnectorError,
                >((connector, state)),
                Some(_) => start matches Err(error) && error.message@
                    == "Event Loop did not receive Connect message first."@,
                None => start matches Err(error) && error.message@
                    == "Client was dropped during connect."@,
            },
    {
        match first {
            None => Err(ButtplugClientConnectorError::new("Client was dropped during connect.")),
            Some(msg) => match msg {
                ButtplugClientMessage::Connect(connector, state) => Ok((connector, state)),
                _ => Err(
                    ButtplugClientConnectorError::new(
                        "Event Loop did not receive Connect message first.",
                    ),
                ),
            },
        }
    }

    /// The second decision of a session, on the outcome of the connector's
    /// attempt to connect. The outcome, as [`connect_reply`] words it, is
    /// offered to `state`, the slot of the `Connect` command, and what the
    /// slot answers decides with the outcome as [`Self::started`] says.
    pub fn connected(
        outcome: Result<(), ButtplugClientConnectorError>,
        state: &ButtplugClientConnectionStateShared,
    ) -> (session: Result<Self, ButtplugClientError>)
        ensures
            match session {
                Ok(session) => {
                    &&& outcome is Ok
                    &&& session.wf()
                    &&& !session.is_terminated()
                    &&& session.devices() == Map::<u32, DeviceInfoView>::empty()
                    &&& session.subscribers() == Map::<
                        u32,
                        Seq<ButtplugClientDeviceEventSender>,
                    >::empty()
                },
                Err(ButtplugClientError::ButtplugClientConnectorError(error)) => {
                    &&& outcome is Err
                    &&& error.message@ == "Client couldn't connect to server."@
                },
                Err(ButtplugClientError::ButtplugClientFault(fault)) => {
                    ||| fault == ButtplugClientFault::ReplyAlreadySet
                    ||| fault == ButtplugClientFault::LockPoisoned
                },
            },
    {
        let offered = set_shared_reply(state, connect_reply(&outcome));
        Self::started(outcome, offered)
    }

    /// What comes of the attempt to connect, once its outcome has been
    /// offered to the slot of the `Connect` command and the slot has
    /// answered with `offered`.
    ///
    /// Where the slot did not take the reply, that fault is the answer, and
    /// there is no session. Where it did, a failed attempt gives the error
    /// "Client couldn't connect to server.", and a successful one gives the
    /// session: it is running, knows no device and has opened its queue of
    /// device commands, which holds [`CHANNEL_CAPACITY`] messages.
    pub fn started(
        outcome: Result<(), ButtplugClientConnectorError>,
        offered: Result<(), ButtplugClientFault>,
    ) -> (session: Result<Self, ButtplugClientError>)
        ensures
            offered matches Err(fault) ==> session == Err::<Self, ButtplugClientError>(
                ButtplugClientError::ButtplugClientFault(fault),
            ),
            offered is Ok && outcome is Err ==> ({
                &&& session matches Err(ButtplugClientError::ButtplugClientConnectorError(error))
                &&& error.message@ == "Client couldn't connect to server."@
            }),
            offered is Ok && outcome is Ok ==> ({
                &&& session matches Ok(session)
                &&& session.wf()
                &&& !session.is_terminated()
                &&& session.devices() == Map::<u32, DeviceInfoView>::empty()
                &&& session.subscribers() == Map::<
                    u32,
                    Seq<ButtplugClientDeviceEventSender>,
                >::empty()
            }),
    {
        match offered {
            Err(fault) => Err(ButtplugClientError::ButtplugClientFault(fault)),
            Ok(()) => match outcome {
                Err(_) => Err(
                    ButtplugClientError::ButtplugClientConnectorError(
                        ButtplugClientConnectorError::new("Client couldn't connect to server."),
                    ),
                ),
                Ok(()) => {
                    let (device_message_sender, device_message_receiver) = bounded(
                        CHANNEL_CAPACITY,
                    );
                    let session = ButtplugClientEventLoop {
                        devices: HashMap::new(),
                        device_event_senders: HashMap::new(),
                        device_message_sender,
                        device_message_receiver,
                        terminated: false,
                    };
                    assert(session.devices() =~= Map::<u32, DeviceInfoView>::empty());
                    assert(session.subscribers() =~= Map::<
                        u32,
                        Seq<ButtplugClientDeviceEventSender>,
                    >::empty());
                    Ok(session)
                },
            },
        }
    }

    /// Whether the session has ended.
    pub fn terminated(&self) -> (ended: bool)
        ensures
            ended == self.is_terminated(),
    {
        self.terminated
    }

    /// The receiving end of the session's queue of device commands, for the
    /// caller to wait on. A session has one such queue from its start to its
    /// end: no step replaces it.
    pub fn device_message_receiver(&self) -> (receiver: &Receiver<ButtplugClientMessageFuturePair>)
        ensures
            *receiver == self.device_queue(),
    {
        &self.device_message_receiver
    }
}

impl ButtplugClientEventLoop {
    /// Subscribes `event_sender` to the device `info`, behind the device's
    /// earlier subscribers, and makes the handle for the device out of the
    /// other end of that channel and of `message_sender`.
    fn subscribe(
        &mut self,
        info: &DeviceMessageInfo,
        event_sender: ButtplugClientDeviceEventSender,
        event_receiver: Receiver<ButtplugClientDeviceEvent>,
        message_sender: Sender<ButtplugClientMessageFuturePair>,
    ) -> (device: ButtplugClientDevice)
        ensures
            device.describes() == info@,
            device.message_sender == message_sender,
            device.event_receiver == event_receiver,
            final(self).subscribers() == subscribed(
                old(self).subscribers(),
                info.device_index,
                event_sender,
            ),
            final(self).devices@ == old(self).devices@,
            final(self).terminated == old(self).terminated,
            final(self).same_queue_as(old(self)),
    {
        broadcast use vstd::std_specs::hash::group_hash_axioms;

        self.device_event_senders.entry(info.device_index).or_insert(Vec::new()).push(event_sender);
        assert(self.subscribers() =~= subscribed(
            old(self).subscribers(),
            info.device_index,
            event_sender,
        ));
        ButtplugClientDevice::new(info, message_sender, event_receiver)
    }

    /// Makes a handle for the device `info`: opens an event channel of
    /// [`CHANNEL_CAPACITY`] messages, subscribes its sending end to the
    /// device behind the earlier subscribers, and gives the handle the
    /// receiving end and a copy of the sender of the queue of device
    /// commands. What is done with the two ends is [`Self::subscribe`].
    fn create_client_device(&mut self, info: &DeviceMessageInfo) -> (device: ButtplugClientDevice)
        ensures
            device.describes() == info@,
            device.message_sender == old(self).device_sender(),
            final(self).subscribers().contains_key(info.device_index),
            final(self).subscribers()[info.device_index].len() > 0,
            final(self).subscribers() == subscribed(
                old(self).subscribers(),
                info.device_index,
                final(self).subscribers()[info.device_index].last(),
            ),
            final(self).devices@ == old(self).devices@,
            final(self).terminated == old(self).terminated,
            final(self).same_queue_as(old(self)),
    {
        let (event_sender, event_receiver) = bounded(CHANNEL_CAPACITY);
        let message_sender = clone_sender(&self.device_message_sender);
        self.subscribe(info, event_sender, event_receiver, message_sender)
    }

    /// Registers the device `info` and makes the handle that announces it.
    fn add_device(&mut self, info: DeviceMessageInfo) -> (device: ButtplugClientDevice)
        requires
            old(self).wf(),
            !old(self).is_terminated(),
        ensures
            final(self).wf(),
            !final(self).is_terminated(),
            final(self).same_queue_as(old(self)),
            device.describes() == info@,
            device.message_sender == old(self).device_sender(),
            final(self).devices() == registered(old(self).devices(), info@),
            final(self).subscribers().contains_key(info.device_index),
            final(self).subscribers() == subscribed(
                old(self).subscribers(),
                info.device_index,
                final(self).subscribers()[info.device_index].last(),
            ),
    {
        broadcast use vstd::std_specs::hash::group_hash_axioms;

        let device = self.create_client_device(&info);
        self.devices.insert(info.device_index, info);
        assert(self.devices() =~= registered(old(self).devices(), info@));
        assert(self.subscribers().dom() =~= self.devices().dom());
        device
    }

    /// Registers the devices of `list`, first to last, and makes the events
    /// that announce them.
    fn add_devices(&mut self, list: &DeviceList) -> (events: Vec<ButtplugClientEvent>)
        requires
            old(self).wf(),
            !old(self).is_terminated(),
        ensures
            final(self).wf(),
            !final(self).is_terminated(),
            final(self).same_queue_as(old(self)),
            announces(events@, infos(list.devices@), old(self).device_sender()),
            final(self).devices() == registered_all(old(self).devices(), infos(list.devices@)),
            grown(old(self).subscribers(), final(self).subscribers(), infos(list.devices@)),
    {
        let ghost all = infos(list.devices@);
        let ghost devices_before = self.devices();
        let ghost subscribers_before = self.subscribers();
        let mut events: Vec<ButtplugClientEvent> = Vec::new();
        let mut i: usize = 0;
        proof {
            assert(all.take(0) =~= Seq::<DeviceInfoView>::empty());
            lemma_grown_by_none(subscribers_before);
        }
        while i < list.devices.len()
            invariant
                i <= list.devices.len(),
                all == infos(list.devices@),
                self.wf(),
                !self.is_terminated(),
                self.same_queue_as(old(self)),
                announces(events@, all.take(i as int), old(self).device_sender()),
                self.devices() == registered_all(devices_before, all.take(i as int)),
                grown(subscribers_before, self.subscribers(), all.take(i as int)),
            decreases list.devices.len() - i,
        {
            let info = list.devices[i].clone();
            let ghost subscribers_so_far = self.subscribers();
            let device = self.add_device(info);
            events.push(ButtplugClientEvent::DeviceAdded(device));
            proof {
                let next = all.take(i + 1);
                assert(next =~= all.take(i as int).push(all[i as int]));
                assert(next.drop_last() =~= all.take(i as int));
                assert(next.last() == all[i as int]);
                lemma_grown_by_one_more(
                    subscribers_before,
                    subscribers_so_far,
                    all.take(i as int),
                    all[i as int],
                    self.subscribers()[info.device_index].last(),
                );
            }
            i += 1;
        }
        assert(all.take(i as int) =~= all);
        events
    }

    /// Ends the session: the registry is emptied and every subscription
    /// dropped, which closes the event channels of the device handles.
    fn terminate(&mut self)
        ensures
            final(self).wf(),
            final(self).ended(),
            final(self).same_queue_as(old(self)),
    {
        self.terminated = true;
        self.devices.clear();
        self.device_event_senders.clear();
        assert(self.devices() =~= Map::<u32, DeviceInfoView>::empty());
        assert(self.subscribers() =~= Map::<u32, Seq<ButtplugClientDeviceEventSender>>::empty());
    }

    /// Gives the session up over `fault`: the session ends, and the fault is
    /// the answer of the step.
    fn give_up(&mut self, fault: ButtplugClientFault) -> (outcome: Result<
        ButtplugClientLoopAction,
        ButtplugClientFault,
    >)
        ensures
            final(self).wf(),
            final(self).ended(),
            final(self).same_queue_as(old(self)),
            outcome == Err::<ButtplugClientLoopAction, ButtplugClientFault>(fault),
    {
        self.terminate();
        Err(fault)
    }

    /// What a running session does with a message of the connector.
    ///
    /// A device that is announced, alone or in a list, is registered, and
    /// the event that tells the client of it carries a fresh handle, whose
    /// event channel is subscribed to the device behind the earlier ones. A
    /// device that is reported gone is taken out of the registry, and the
    /// action carries what was known of it together with all its
    /// subscribers, who are to be told. The removal of a device that is not
    /// registered is a fault, and so is any other message; a fault ends the
    /// session.
    pub open spec fn connector_step(
        before: &Self,
        msg: ButtplugMessageUnion,
        after: &Self,
        outcome: Result<ButtplugClientLoopAction, ButtplugClientFault>,
    ) -> bool {
        match msg {
            ButtplugMessageUnion::DeviceAdded(added) => {
                &&& !after.is_terminated()
                &&& after.devices() == registered(before.devices(), added.info())
                &&& after.subscribers().contains_key(added.device_index)
                &&& after.subscribers() == subscribed(
                    before.subscribers(),
                    added.device_index,
                    after.subscribers()[added.device_index].last(),
                )
                &&& outcome matches Ok(ButtplugClientLoopAction::Emit(events))
                &&& announces(events@, seq![added.info()], before.device_sender())
            },
            ButtplugMessageUnion::DeviceList(list) => Self::device_list_step(
                before,
                list,
                after,
                outcome,
            ),
            ButtplugMessageUnion::DeviceRemoved(removed) => {
                if before.devices().contains_key(removed.device_index) {
                    &&& !after.is_terminated()
                    &&& after.devices() == unregistered(before.devices(), removed.device_index)
                    &&& after.subscribers() == before.subscribers().remove(removed.device_index)
                    &&& outcome matches Ok(ButtplugClientLoopAction::Removed(subscribers, event))
                    &&& subscribers@ == before.subscribers()[removed.device_index]
                    &&& event matches ButtplugClientEvent::DeviceRemoved(info)
                    &&& info@ == before.devices()[removed.device_index]
                } else {
                    &&& after.ended()
                    &&& outcome == Err::<ButtplugClientLoopAction, ButtplugClientFault>(
                        ButtplugClientFault::UnknownDevice,
                    )
                }
            },
            _ => {
                &&& after.ended()
                &&& outcome == Err::<ButtplugClientLoopAction, ButtplugClientFault>(
                    ButtplugClientFault::UnhandledConnectorMessage,
                )
            },
        }
    }

    /// What a running session does with a list of devices, whether the
    /// connector sent it or the client handed it in: it registers the
    /// devices, first to last, and announces each with a fresh handle, whose
    /// event channel is subscribed to the device behind the earlier ones.
    pub open spec fn device_list_step(
        before: &Self,
        list: DeviceList,
        after: &Self,
        outcome: Result<ButtplugClientLoopAction, ButtplugClientFault>,
    ) -> bool {
        &&& !after.is_terminated()
        &&& after.devices() == registered_all(before.devices(), infos(list.devices@))
        &&& grown(before.subscribers(), after.subscribers(), infos(list.devices@))
        &&& outcome matches Ok(ButtplugClientLoopAction::Emit(events))
        &&& announces(events@, infos(list.devices@), before.device_sender())
    }

    /// One step of the session on a message of the connector. A session
    /// that has ended takes nothing: it answers `Stop` and stays as it is.
    /// For a running session see [`Self::connector_step`].
    pub fn parse_connector_message(&mut self, msg: ButtplugMessageUnion) -> (outcome: Result<
        ButtplugClientLoopAction,
        ButtplugClientFault,
    >)
        requires
            old(self).wf(),
        ensures
            final(self).wf(),
            final(self).same_queue_as(old(self)),
            old(self).is_terminated() ==> final(self).unchanged_from(old(self)) && outcome == Ok::<
                ButtplugClientLoopAction,
                ButtplugClientFault,
            >(ButtplugClientLoopAction::Stop),
            !old(self).is_terminated() ==> Self::connector_step(
                old(self),
                msg,
                final(self),
                outcome,
            ),
    {
        broadcast use vstd::std_specs::hash::group_hash_axioms;

        if self.terminated {
            return Ok(ButtplugClientLoopAction::Stop);
        }
        match msg {
            ButtplugMessageUnion::DeviceAdded(added) => {
                let info = DeviceMessageInfo::from_added(&added);
                let device = self.add_device(info);
                let mut events: Vec<ButtplugClientEvent> = Vec::new();
                events.push(ButtplugClientEvent::DeviceAdded(device));
                Ok(ButtplugClientLoopAction::Emit(events))
            },
            ButtplugMessageUnion::DeviceList(list) => {
                let events = self.add_devices(&list);
                Ok(ButtplugClientLoopAction::Emit(events))
            },
            ButtplugMessageUnion::DeviceRemoved(removed) => {
                match self.devices.remove(&removed.device_index) {
                    None => {
                        assert(self.devices@ =~= old(self).devices@);
                        self.give_up(ButtplugClientFault::UnknownDevice)
                    },
                    Some(info) => {
                        assert(old(self).subscribers().contains_key(removed.device_index));
                        let subscribers = match self.device_event_senders.remove(
                            &removed.device_index,
                        ) {
                            Some(subscribers) => subscribers,
                            None => Vec::new(),
                        };
                        assert(self.devices() =~= unregistered(
                            old(self).devices(),
                            removed.device_index,
                        ));
                        assert(self.subscribers() =~= old(self).subscribers().remove(
                            removed.device_index,
                        ));
                        Ok(
                            ButtplugClientLoopAction::Removed(
                                subscribers,
                                ButtplugClientEvent::DeviceRemoved(info),
                            ),
                        )
                    },
                }
            },
            _ => self.give_up(ButtplugClientFault::UnhandledConnectorMessage),
        }
    }

    /// The indices of the registered devices, each once, in the order in
    /// which the registry hands them out.
    fn device_indices(&self) -> (indices: Vec<u32>)
        ensures
            indices@.no_duplicates(),
            indices@.to_set() == self.devices@.dom(),
    {
        broadcast use vstd::std_specs::hash::group_hash_axioms;

        let mut indices: Vec<u32> = Vec::new();
        let ghost all = spec_keys_iter(&self.devices).remaining();
        for index in keys: self.devices.keys()
            invariant
                keys.seq() == all,
                indices@ == all.take(keys.index()).unref(),
        {
            indices.push(*index);
            assert(indices@ =~= all.take(keys.index() + 1).unref());
        }
        assert(indices@ =~= all.unref());
        assert(indices@.no_duplicates()) by {
            assert forall|i: int, j: int|
                0 <= i < indices@.len() && 0 <= j < indices@.len() && i != j implies indices@[i]
                != indices@[j] by {
                assert(all[i] != all[j]);
            }
        }
        indices
    }

    /// A fresh handle for every registered device: the registry is walked
    /// once, and each device gets one more subscriber behind its earlier
    /// ones. The registry itself stays as it is.
    pub fn device_list(&mut self) -> (handles: Vec<ButtplugClientDevice>)
        requires
            old(self).wf(),
        ensures
            final(self).wf(),
            final(self).same_queue_as(old(self)),
            final(self).devices() == old(self).devices(),
            final(self).is_terminated() == old(self).is_terminated(),
            grown_each(old(self).subscribers(), final(self).subscribers()),
            lists(descriptions(handles@), old(self).devices()),
            forall|i: int|
                0 <= i < handles@.len() ==> (#[trigger] handles@[i]).message_sender == old(
                    self,
                ).device_sender(),
    {
        broadcast use vstd::std_specs::hash::group_hash_axioms;

        let ghost before = self.subscribers();
        assert forall|index: u32| #[trigger] self.devices@.contains_key(index) implies
            self.devices@[index].device_index == index by {
            assert(self.devices().contains_key(index));
        }
        assert(self.devices().dom() =~= self.devices@.dom());
        let indices = self.device_indices();
        let mut handles: Vec<ButtplugClientDevice> = Vec::new();
        let mut i: usize = 0;
        while i < indices.len()
            invariant
                i <= indices.len(),
                indices@.no_duplicates(),
                indices@.to_set() == self.devices@.dom(),
                self.devices@ == old(self).devices@,
                self.terminated == old(self).terminated,
                self.same_queue_as(old(self)),
                before == old(self).subscribers(),
                before.dom() == self.devices@.dom(),
                forall|index: u32| #[trigger]
                    self.devices@.contains_key(index) ==> self.devices@[index].device_index
                        == index,
                handles@.len() == i,
                forall|j: int|
                    0 <= j < i ==> (#[trigger] handles@[j]).describes()
                        == self.devices@[indices@[j]]@ && handles@[j].index == indices@[j]
                        && handles@[j].message_sender == old(self).device_sender(),
                self.subscribers().dom() == before.dom(),
                forall|index: u32| #[trigger]
                    before.contains_key(index) ==> if indices@.take(i as int).contains(index) {
                        self.subscribers()[index].len() == before[index].len() + 1
                            && self.subscribers()[index].drop_last() == before[index]
                    } else {
                        self.subscribers()[index] == before[index]
                    },
            decreases indices.len() - i,
        {
            let index = indices[i];
            assert(indices@.to_set().contains(indices@[i as int]));
            let info = self.devices.get(&index).unwrap().clone();
            let ghost so_far = self.subscribers();
            let device = self.create_client_device(&info);
            handles.push(device);
            proof {
                let done = indices@.take(i as int);
                let next = indices@.take(i + 1);
                assert(next =~= done.push(index));
                assert(!done.contains(index));
                assert(so_far[index] == before[index]);
                assert(self.subscribers()[index].drop_last() =~= before[index]);
                assert forall|other: u32| #[trigger] before.contains_key(other) implies (
                next.contains(other) <==> done.contains(other) || other == index) by {
                    if done.contains(other) {
                        let j = choose|j: int| 0 <= j < done.len() && done[j] == other;
                        assert(next[j] == other);
                    }
                    if other == index {
                        assert(next[i as int] == other);
                    }
                }
                assert(self.subscribers().dom() =~= before.dom());
            }
            i += 1;
        }
        proof {
            assert(indices@.take(i as int) =~= indices@);
            indices@.unique_seq_to_set();
            assert(self.devices().dom() =~= self.devices@.dom());
            assert forall|index: u32| #[trigger] before.contains_key(index) implies
                self.subscribers()[index].len() == before[index].len() + 1
                && self.subscribers()[index].drop_last() == before[index] by {
                assert(indices@.to_set().contains(index));
            }
            let listed = descriptions(handles@);
            assert forall|index: u32| #[trigger]
                old(self).devices().contains_key(index) implies exists|j: int|
                0 <= j < listed.len() && (#[trigger] listed[j]).device_index == index by {
                assert(indices@.to_set().contains(index));
                let j = choose|j: int| 0 <= j < indices@.len() && indices@[j] == index;
                assert(listed[j].device_index == index);
            }
        }
        handles
    }

    /// What a running session does with a command of the client.
    ///
    /// A message is handed to the connector with its slot, and a list of
    /// devices is registered and announced; the session goes on. A request
    /// for the devices is answered with the handles that
    /// [`Self::device_list`] makes, which go back together with the slot of
    /// the command. A disconnect ends the session at once, whatever the
    /// connector will make of it, and hands the slot back for the outcome. A
    /// second `Connect` is a fault, which ends the session.
    pub open spec fn client_step<C>(
        before: &Self,
        msg: ButtplugClientMessage<C>,
        after: &Self,
        outcome: Result<ButtplugClientLoopAction, ButtplugClientFault>,
    ) -> bool {
        match msg {
            ButtplugClientMessage::Message(pair) => {
                &&& after.unchanged_from(before)
                &&& outcome == Ok::<ButtplugClientLoopAction, ButtplugClientFault>(
                    ButtplugClientLoopAction::Send(pair.0, pair.1),
                )
            },
            ButtplugClientMessage::Disconnect(state) => {
                &&& after.ended()
                &&& outcome == Ok::<ButtplugClientLoopAction, ButtplugClientFault>(
                    ButtplugClientLoopAction::Disconnect(state),
                )
            },
            ButtplugClientMessage::RequestDeviceList(state) => {
                &&& !after.is_terminated()
                &&& after.devices() == before.devices()
                &&& grown_each(before.subscribers(), after.subscribers())
                &&& outcome matches Ok(ButtplugClientLoopAction::Reply(slot, handles))
                &&& slot == state
                &&& lists(descriptions(handles@), before.devices())
                &&& forall|i: int|
                    0 <= i < handles@.len() ==> (#[trigger] handles@[i]).message_sender
                        == before.device_sender()
            },
            ButtplugClientMessage::HandleDeviceList(list) => Self::device_list_step(
                before,
                list,
                after,
                outcome,
            ),
            ButtplugClientMessage::Connect(_, _) => {
                &&& after.ended()
                &&& outcome == Err::<ButtplugClientLoopAction, ButtplugClientFault>(
                    ButtplugClientFault::UnhandledClientMessage,
                )
            },
        }
    }

    /// One step of the session on a command of the client. A session that
    /// has ended takes nothing: it answers `Stop` and stays as it is. For a
    /// running session see [`Self::client_step`].
    pub fn parse_client_message<C>(&mut self, msg: ButtplugClientMessage<C>) -> (outcome: Result<
        ButtplugClientLoopAction,
        ButtplugClientFault,
    >)
        requires
            old(self).wf(),
        ensures
            final(self).wf(),
            final(self).same_queue_as(old(self)),
            old(self).is_terminated() ==> final(self).unchanged_from(old(self)) && outcome == Ok::<
                ButtplugClientLoopAction,
                ButtplugClientFault,
            >(ButtplugClientLoopAction::Stop),
            !old(self).is_terminated() ==> Self::client_step(old(self), msg, final(self), outcome),
    {
        if self.terminated {
            return Ok(ButtplugClientLoopAction::Stop);
        }
        match msg {
            ButtplugClientMessage::Message(pair) => Ok(
                ButtplugClientLoopAction::Send(pair.0, pair.1),
            ),
            ButtplugClientMessage::Disconnect(state) => {
                self.terminate();
                Ok(ButtplugClientLoopAction::Disconnect(state))
            },
            ButtplugClientMessage::RequestDeviceList(state) => {
                let handles = self.device_list();
                Ok(ButtplugClientLoopAction::Reply(state, handles))
            },
            ButtplugClientMessage::HandleDeviceList(list) => {
                let events = self.add_devices(&list);
                Ok(ButtplugClientLoopAction::Emit(events))
            },
            ButtplugClientMessage::Connect(_, _) => self.give_up(
                ButtplugClientFault::UnhandledClientMessage,
            ),
        }
    }

    /// What a running session does with what a wait on its queues brought:
    /// a message of the connector and a command of the client are handled
    /// as [`Self::connector_step`] and [`Self::client_step`] say; a command
    /// of a device handle is handed to the connector as it is, whether or
    /// not its device is still registered; and when the queue of the client
    /// or of the connector is closed, the session ends.
    pub open spec fn step<C>(
        before: &Self,
        input: StreamReturn<C>,
        after: &Self,
        outcome: Result<ButtplugClientLoopAction, ButtplugClientFault>,
    ) -> bool {
        match input {
            StreamReturn::ConnectorMessage(msg) => Self::connector_step(
                before,
                msg,
                after,
                outcome,
            ),
            StreamReturn::ClientMessage(msg) => Self::client_step(before, msg, after, outcome),
            StreamReturn::DeviceMessage(pair) => {
                &&& after.unchanged_from(before)
                &&& outcome == Ok::<ButtplugClientLoopAction, ButtplugClientFault>(
                    ButtplugClientLoopAction::Send(pair.0, pair.1),
                )
            },
            StreamReturn::Disconnect => {
                &&& after.ended()
                &&& outcome == Ok::<ButtplugClientLoopAction, ButtplugClientFault>(
                    ButtplugClientLoopAction::Stop,
                )
            },
        }
    }

    /// What one turn makes of a session, running or ended: a session that
    /// has ended answers `Stop` and stays as it is, and a running one takes
    /// the step that [`Self::step`] describes.
    pub open spec fn turn<C>(
        before: &Self,
        input: StreamReturn<C>,
        after: &Self,
        outcome: Result<ButtplugClientLoopAction, ButtplugClientFault>,
    ) -> bool {
        if before.is_terminated() {
            &&& after.unchanged_from(before)
            &&& outcome == Ok::<ButtplugClientLoopAction, ButtplugClientFault>(
                ButtplugClientLoopAction::Stop,
            )
        } else {
            Self::step(before, input, after, outcome)
        }
    }

    /// One turn of the session loop, on what the wait on the three queues
    /// brought. The caller carries out the action that comes back and, unless
    /// the action ends the session, waits again; on a fault the session has
    /// ended. See [`Self::turn`].
    pub fn run<C>(&mut self, input: StreamReturn<C>) -> (outcome: Result<
        ButtplugClientLoopAction,
        ButtplugClientFault,
    >)
        requires
            old(self).wf(),
        ensures
            final(self).wf(),
            final(self).same_queue_as(old(self)),
            Self::turn(old(self), input, final(self), outcome),
    {
        if self.terminated {
            return Ok(ButtplugClientLoopAction::Stop);
        }
        match input {
            StreamReturn::ConnectorMessage(msg) => self.parse_connector_message(msg),
            StreamReturn::ClientMessage(msg) => self.parse_client_message(msg),
            StreamReturn::DeviceMessage(pair) => Ok(ButtplugClientLoopAction::Send(pair.0, pair.1)),
            StreamReturn::Disconnect => {
                self.terminate();
                Ok(ButtplugClientLoopAction::Stop)
            },
        }
    }
}

impl<C> StreamReturn<C> {
    /// What the queue of client commands brought: a command, or, where the
    /// client has gone and the queue is closed, the end of the session.
    pub fn from_client(received: Option<ButtplugClientMessage<C>>) -> (input: Self)
        ensures
            match received {
                Some(msg) => input == StreamReturn::ClientMessage(msg),
                None => input == StreamReturn::<C>::Disconnect,
            },
    {
        match received {
            Some(msg) => StreamReturn::ClientMessage(msg),
            None => StreamReturn::Disconnect,
        }
    }

    /// What the stream of connector notifications brought: a message, or,
    /// where the stream is closed, the end of the session.
    pub fn from_connector(received: Option<ButtplugMessageUnion>) -> (input: Self)
        ensures
            match received {
                Some(msg) => input == StreamReturn::<C>::ConnectorMessage(msg),
                None => input == StreamReturn::<C>::Disconnect,
            },
    {
        match received {
            Some(msg) => StreamReturn::ConnectorMessage(msg),
            None => StreamReturn::Disconnect,
        }
    }

    /// What the queue of device commands brought. The session holds a
    /// sender of that queue for as long as it runs, so the queue cannot be
    /// found closed: that it was is a fault.
    pub fn from_device(received: Option<ButtplugClientMessageFuturePair>) -> (input: Result<
        Self,
        ButtplugClientFault,
    >)
        ensures
            match received {
                Some(pair) => input == Ok::<Self, ButtplugClientFault>(
                    StreamReturn::DeviceMessage(pair),
                ),
                None => input == Err::<Self, ButtplugClientFault>(
                    ButtplugClientFault::DeviceQueueClosed,
                ),
            },
    {
        match received {
            Some(pair) => Ok(StreamReturn::DeviceMessage(pair)),
            None => Err(ButtplugClientFault::DeviceQueueClosed),
        }
    }
}

/// One of the three queues that a running session is fed from.
#[derive(Debug, Clone, Copy, PartialEq, Eq, Structural)]
pub enum ButtplugClientSource {
    /// The notifications of the connector.
    Connector,
    /// The commands of the client.
    Client,
    /// The commands of the device handles.
    Device,
}

/// The order in which the three queues are asked at the wait number `wait`:
/// the order of the wait before, moved on by one place.
pub open spec fn poll_order_of(wait: int) -> (
    ButtplugClientSource,
    ButtplugClientSource,
    ButtplugClientSource,
) {
    if wait % 3 == 0 {
        (ButtplugClientSource::Connector, ButtplugClientSource::Client, ButtplugClientSource::Device)
    } else if wait % 3 == 1 {
        (ButtplugClientSource::Client, ButtplugClientSource::Device, ButtplugClientSource::Connector)
    } else {
        (ButtplugClientSource::Device, ButtplugClientSource::Connector, ButtplugClientSource::Client)
    }
}

/// The order in which the caller asks the three queues at its wait number
/// `wait`, where the first queue that has something wins. The order moves on
/// by one place from wait to wait, so that no queue is kept waiting by the
/// traffic on another.
pub fn poll_order(wait: usize) -> (order: (
    ButtplugClientSource,
    ButtplugClientSource,
    ButtplugClientSource,
))
    ensures
        order == poll_order_of(wait as int),
{
    let place = wait % 3;
    if place == 0 {
        (ButtplugClientSource::Connector, ButtplugClientSource::Client, ButtplugClientSource::Device)
    } else if place == 1 {
        (ButtplugClientSource::Client, ButtplugClientSource::Device, ButtplugClientSource::Connector)
    } else {
        (ButtplugClientSource::Device, ButtplugClientSource::Connector, ButtplugClientSource::Client)
    }
}

/// Every wait asks each of the three queues once, and of any three waits in
/// a row each queue is asked first in one: no queue can be starved by the
/// two others.
pub proof fn lemma_poll_order_is_fair(wait: int, source: ButtplugClientSource)
    requires
        wait >= 0,
    ensures
        poll_order_of(wait).0 == source || poll_order_of(wait).1 == source || poll_order_of(
            wait,
        ).2 == source,
        poll_order_of(wait).0 != poll_order_of(wait).1,
        poll_order_of(wait).1 != poll_order_of(wait).2,
        poll_order_of(wait).0 != poll_order_of(wait).2,
        poll_order_of(wait).0 == source || poll_order_of(wait + 1).0 == source || poll_order_of(
            wait + 2,
        ).0 == source,
{
}

/// A running session that is told to disconnect has ended when the step
/// returns, and the step hands back the slot of the command for the outcome.
/// The step is taken before the connector is asked, so this holds whether
/// its disconnect succeeds or fails.
pub proof fn lemma_disconnect_ends_session<C>(
    before: &ButtplugClientEventLoop,
    state: ButtplugClientConnectionStateShared,
    after: &ButtplugClientEventLoop,
    outcome: Result<ButtplugClientLoopAction, ButtplugClientFault>,
)
    requires
        !before.is_terminated(),
        ButtplugClientEventLoop::turn(
            before,
            StreamReturn::<C>::ClientMessage(ButtplugClientMessage::Disconnect(state)),
            after,
            outcome,
        ),
    ensures
        after.ended(),
        outcome == Ok::<ButtplugClientLoopAction, ButtplugClientFault>(
            ButtplugClientLoopAction::Disconnect(state),
        ),
{
}

/// A turn that answers with a fault has ended the session, and a session
/// that has ended answers every further turn with `Stop` and stays ended:
/// after a fault nothing goes on.
pub proof fn lemma_fault_ends_session<C>(
    before: &ButtplugClientEventLoop,
    input: StreamReturn<C>,
    faulted: &ButtplugClientEventLoop,
    fault: ButtplugClientFault,
    next: StreamReturn<C>,
    after: &ButtplugClientEventLoop,
    outcome: Result<ButtplugClientLoopAction, ButtplugClientFault>,
)
    requires
        ButtplugClientEventLoop::turn(
            before,
            input,
            faulted,
            Err::<ButtplugClientLoopAction, ButtplugClientFault>(fault),
        ),
        ButtplugClientEventLoop::turn(faulted, next, after, outcome),
    ensures
        faulted.ended(),
        after.ended(),
        outcome == Ok::<ButtplugClientLoopAction, ButtplugClientFault>(
            ButtplugClientLoopAction::Stop,
        ),
{
}

/// Whether `states` and `outcomes` are what a series of turns makes of the
/// commands `commands` of device handles: the `i`-th turn takes the session
/// from `states[i]` to `states[i + 1]` and answers `outcomes[i]`.
pub open spec fn device_turns<C>(
    states: Seq<ButtplugClientEventLoop>,
    commands: Seq<ButtplugClientMessageFuturePair>,
    outcomes: Seq<Result<ButtplugClientLoopAction, ButtplugClientFault>>,
) -> bool {
    &&& states.len() == commands.len() + 1
    &&& outcomes.len() == commands.len()
    &&& forall|i: int|
        0 <= i < commands.len() ==> ButtplugClientEventLoop::turn(
            &states[i],
            StreamReturn::<C>::DeviceMessage(commands[i]),
            &states[i + 1],
            #[trigger] outcomes[i],
        )
}

/// A running session hands every command of a device handle to the
/// connector once and in the order in which the commands came: the `i`-th
/// turn answers with the `i`-th command and its slot, and the session stays
/// as it was.
pub proof fn lemma_device_commands_go_out_in_order<C>(
    states: Seq<ButtplugClientEventLoop>,
    commands: Seq<ButtplugClientMessageFuturePair>,
    outcomes: Seq<Result<ButtplugClientLoopAction, ButtplugClientFault>>,
)
    requires
        device_turns::<C>(states, commands, outcomes),
        !states[0].is_terminated(),
    ensures
        forall|i: int|
            0 <= i < commands.len() ==> #[trigger] outcomes[i] == Ok::<
                ButtplugClientLoopAction,
                ButtplugClientFault,
            >(ButtplugClientLoopAction::Send(commands[i].0, commands[i].1)),
        forall|i: int| 0 <= i < states.len() ==> (#[trigger] states[i]).unchanged_from(&states[0]),
{
    assert forall|i: int| 0 <= i < states.len() implies (#[trigger] states[i]).unchanged_from(
        &states[0],
    ) by {
        lemma_device_turns_keep_session::<C>(states, commands, outcomes, i);
    }
    assert forall|i: int| 0 <= i < commands.len() implies #[trigger] outcomes[i] == Ok::<
        ButtplugClientLoopAction,
        ButtplugClientFault,
    >(ButtplugClientLoopAction::Send(commands[i].0, commands[i].1)) by {
        lemma_device_turns_keep_session::<C>(states, commands, outcomes, i);
    }
}

/// The induction behind [`lemma_device_commands_go_out_in_order`]: the
/// session is unchanged up to the turn `upto`.
proof fn lemma_device_turns_keep_session<C>(
    states: Seq<ButtplugClientEventLoop>,
    commands: Seq<ButtplugClientMessageFuturePair>,
    outcomes: Seq<Result<ButtplugClientLoopAction, ButtplugClientFault>>,
    upto: int,
)
    requires
        device_turns::<C>(states, commands, outcomes),
        !states[0].is_terminated(),
        0 <= upto < states.len(),
    ensures
        states[upto].unchanged_from(&states[0]),
    decreases upto,
{
    if upto > 0 {
        lemma_device_turns_keep_session::<C>(states, commands, outcomes, upto - 1);
        assert(ButtplugClientEventLoop::turn(
            &states[upto - 1],
            StreamReturn::<C>::DeviceMessage(commands[upto - 1]),
            &states[upto - 1 + 1],
            outcomes[upto - 1],
        ));
    }
}

/// A list of `n` devices with `n` distinct indices, given to a running
/// session, is answered with `n` announcements, the `i`-th with a handle
/// that describes the `i`-th device, and afterwards all `n` devices are
/// registered as the list describes them, beside those that were registered
/// before under other indices.
pub proof fn lemma_device_list_is_announced_and_registered(
    before: &ButtplugClientEventLoop,
    list: DeviceList,
    after: &ButtplugClientEventLoop,
    outcome: Result<ButtplugClientLoopAction, ButtplugClientFault>,
)
    requires
        before.wf(),
        distinct_indices(infos(list.devices@)),
        ButtplugClientEventLoop::device_list_step(before, list, after, outcome),
    ensures
        outcome matches Ok(ButtplugClientLoopAction::Emit(events)) && events@.len()
            == list.devices@.len() && forall|i: int|
            0 <= i < events@.len() ==> (#[trigger] events@[i] matches ButtplugClientEvent::DeviceAdded(
                handle,
            ) && handle.describes() == list.devices@[i]@),
        forall|i: int|
            0 <= i < list.devices@.len() ==> after.devices().contains_key(
                (#[trigger] list.devices@[i]).device_index,
            ) && after.devices()[list.devices@[i].device_index] == list.devices@[i]@,
        forall|index: u32|
            before.devices().contains_key(index) ==> #[trigger] after.devices().contains_key(index),
{
    let all = infos(list.devices@);
    lemma_bulk_registration(before.devices(), all);
    assert forall|i: int| 0 <= i < list.devices@.len() implies after.devices().contains_key(
        (#[trigger] list.devices@[i]).device_index,
    ) && after.devices()[list.devices@[i].device_index] == list.devices@[i]@ by {
        assert(all[i] == list.devices@[i]@);
    }
}

/// A device that the connector has announced to a running session is in
/// every listing of the session's devices that follows, as it was
/// announced, until the connector reports it gone, which is then no fault;
/// in the listings after that it is missing.
pub proof fn lemma_listing_follows_notifications(
    before: &ButtplugClientEventLoop,
    added: DeviceAdded,
    known: &ButtplugClientEventLoop,
    announced: Result<ButtplugClientLoopAction, ButtplugClientFault>,
    listed_while_known: Seq<DeviceInfoView>,
    removed: DeviceRemoved,
    gone: &ButtplugClientEventLoop,
    dismissed: Result<ButtplugClientLoopAction, ButtplugClientFault>,
    listed_when_gone: Seq<DeviceInfoView>,
)
    requires
        ButtplugClientEventLoop::connector_step(
            before,
            ButtplugMessageUnion::DeviceAdded(added),
            known,
            announced,
        ),
        lists(listed_while_known, known.devices()),
        removed.device_index == added.device_index,
        ButtplugClientEventLoop::connector_step(
            known,
            ButtplugMessageUnion::DeviceRemoved(removed),
            gone,
            dismissed,
        ),
        lists(listed_when_gone, gone.devices()),
    ensures
        exists|i: int| 0 <= i < listed_while_known.len() && listed_while_known[i] == added.info(),
        dismissed is Ok,
        forall|i: int|
            0 <= i < listed_when_gone.len() ==> (#[trigger] listed_when_gone[i]).device_index
                != added.device_index,
{
    lemma_listed_between_add_and_remove(
        before.devices(),
        added.info(),
        listed_while_known,
        listed_when_gone,
    );
}

/// A handle that was made for a device, when the device was announced or
/// when the devices were listed, has subscribed the sending end of its
/// event channel behind the device's earlier subscribers; and when the
/// device is reported gone, the action names all the subscribers that the
/// device has, first to last, so that each of them is told.
pub proof fn lemma_removal_names_every_subscriber(
    known: &ButtplugClientEventLoop,
    listed: &ButtplugClientEventLoop,
    removed: DeviceRemoved,
    gone: &ButtplugClientEventLoop,
    dismissed: Result<ButtplugClientLoopAction, ButtplugClientFault>,
)
    requires
        known.wf(),
        known.devices().contains_key(removed.device_index),
        listed.devices() == known.devices(),
        grown_each(known.subscribers(), listed.subscribers()),
        ButtplugClientEventLoop::connector_step(
            listed,
            ButtplugMessageUnion::DeviceRemoved(removed),
            gone,
            dismissed,
        ),
    ensures
        dismissed matches Ok(ButtplugClientLoopAction::Removed(subscribers, _))
            && subscribers@.len() == known.subscribers()[removed.device_index].len() + 1
            && subscribers@.drop_last() == known.subscribers()[removed.device_index],
        !gone.subscribers().contains_key(removed.device_index),
{
}

} // verus!
