//! The client's handle on one device.

use crate::internal::ButtplugClientDeviceEvent;
use crate::internal::ButtplugClientMessageFuturePair;
use crate::messages::clone_names;
use crate::messages::texts;
use crate::messages::DeviceInfoView;
use crate::messages::DeviceMessageInfo;
use async_std::channel::Receiver;
use async_std::channel::Sender;
use vstd::prelude::*;

verus! {

/// A proxy for one device of the server: what the server told of the device,
/// a sender into the session's queue of device commands, and the receiving
/// end of the event channel that the session opened for this handle.
#[derive(Debug)]
pub struct ButtplugClientDevice {
    pub name: String,
    pub index: u32,
    pub allowed_messages: Vec<String>,
    pub message_sender: Sender<ButtplugClientMessageFuturePair>,
    pub event_receiver: Receiver<ButtplugClientDeviceEvent>,
}

impl ButtplugClientDevice {
    /// The device that the handle stands for.
    pub open spec fn describes(&self) -> DeviceInfoView {
        DeviceInfoView {
            device_index: self.index,
            device_name: self.name@,
            device_messages: texts(self.allowed_messages@),
        }
    }

    /// A handle for the device `info` over the two channel ends.
    pub fn new(
        info: &DeviceMessageInfo,
        message_sender: Sender<ButtplugClientMessageFuturePair>,
        event_receiver: Receiver<ButtplugClientDeviceEvent>,
    ) -> (device: Self)
        ensures
            device.describes() == info@,
            device.message_sender == message_sender,
            device.event_receiver == event_receiver,
    {
        ButtplugClientDevice {
            name: info.device_name.clone(),
            index: info.device_index,
            allowed_messages: clone_names(&info.device_messages),
            message_sender,
            event_receiver,
        }
    }
}

/// The devices that a list of handles stands for, in the list's order.
pub open spec fn descriptions(handles: Seq<ButtplugClientDevice>) -> Seq<DeviceInfoView> {
    handles.map_values(|handle: ButtplugClientDevice| handle.describes())
}

} // verus!
