//! The protocol messages that the session looks into: the three device
//! notifications, and the description of a device that they carry. Every
//! other message is routed without being read.

use vstd::prelude::*;

verus! {

/// A device as the contracts of this crate see it.
pub struct DeviceInfoView {
    pub device_index: u32,
    pub device_name: Seq<char>,
    pub device_messages: Seq<Seq<char>>,
}

/// The texts of a list of strings.
pub open spec fn texts(names: Seq<String>) -> Seq<Seq<char>> {
    names.map_values(|name: String| name@)
}

/// A copy of `names`, string by string.
pub fn clone_names(names: &Vec<String>) -> (copy: Vec<String>)
    ensures
        texts(copy@) == texts(names@),
{
    let mut copy: Vec<String> = Vec::new();
    let mut i: usize = 0;
    while i < names.len()
        invariant
            i <= names.len(),
            copy.len() == i,
            forall|j: int| 0 <= j < i ==> copy@[j]@ == names@[j]@,
        decreases names.len() - i,
    {
        copy.push(names[i].clone());
        i += 1;
    }
    assert(texts(copy@) =~= texts(names@));
    copy
}

/// What the server tells of one device: the index it gave the device, the
/// device's name, and the names of the commands that the device takes.
#[derive(Debug)]
pub struct DeviceMessageInfo {
    pub device_index: u32,
    pub device_name: String,
    pub device_messages: Vec<String>,
}

impl View for DeviceMessageInfo {
    type V = DeviceInfoView;

    open spec fn view(&self) -> DeviceInfoView {
        DeviceInfoView {
            device_index: self.device_index,
            device_name: self.device_name@,
            device_messages: texts(self.device_messages@),
        }
    }
}

impl Clone for DeviceMessageInfo {
    fn clone(&self) -> (copy: Self)
        ensures
            copy@ == self@,
    {
        DeviceMessageInfo {
            device_index: self.device_index,
            device_name: self.device_name.clone(),
            device_messages: clone_names(&self.device_messages),
        }
    }
}

/// The descriptions of a list of devices, in the list's order.
pub open spec fn infos(devices: Seq<DeviceMessageInfo>) -> Seq<DeviceInfoView> {
    devices.map_values(|device: DeviceMessageInfo| device@)
}

/// Notification: a device has appeared.
#[derive(Debug)]
pub struct DeviceAdded {
    pub id: u32,
    pub device_index: u32,
    pub device_name: String,
    pub device_messages: Vec<String>,
}

impl DeviceAdded {
    /// The device that the notification announces.
    pub open spec fn info(&self) -> DeviceInfoView {
        DeviceInfoView {
            device_index: self.device_index,
            device_name: self.device_name@,
            device_messages: texts(self.device_messages@),
        }
    }
}

impl DeviceMessageInfo {
    /// The description of the device that `added` announces.
    pub fn from_added(added: &DeviceAdded) -> (info: Self)
        ensures
            info@ == added.info(),
    {
        DeviceMessageInfo {
            device_index: added.device_index,
            device_name: added.device_name.clone(),
            device_messages: clone_names(&added.device_messages),
        }
    }
}

/// Notification: all the devices that the server knows.
#[derive(Debug)]
pub struct DeviceList {
    pub id: u32,
    pub devices: Vec<DeviceMessageInfo>,
}

/// Notification: a device has gone.
#[derive(Debug, Clone, Copy, PartialEq, Eq, Structural)]
pub struct DeviceRemoved {
    pub id: u32,
    pub device_index: u32,
}

/// Command: stop every device.
#[derive(Debug, PartialEq, Eq, Structural)]
pub struct StopAllDevices {
    pub(super) id: u32,
}

impl StopAllDevices {
    /// The message id.
    pub closed spec fn spec_id(&self) -> u32 {
        self.id
    }

    /// The message id.
    pub fn get_id(&self) -> (id: u32)
        ensures
            id == self.spec_id(),
    {
        self.id
    }

    /// Gives the message the id `id`.
    pub fn set_id(&mut self, id: u32)
        ensures
            final(self).spec_id() == id,
    {
        self.id = id;
    }
}

impl Default for StopAllDevices {
    fn default() -> (message: Self)
        ensures
            message.spec_id() == 0,
    {
        StopAllDevices { id: 0 }
    }
}

impl Clone for StopAllDevices {
    fn clone(&self) -> (copy: Self)
        ensures
            copy == *self,
    {
        StopAllDevices { id: self.id }
    }
}

/// Any message of the protocol that the session can be handed.
#[derive(Debug)]
pub enum ButtplugMessageUnion {
    DeviceAdded(DeviceAdded),
    DeviceList(DeviceList),
    DeviceRemoved(DeviceRemoved),
    StopAllDevices(StopAllDevices),
}

} // verus!
