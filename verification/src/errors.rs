//! What can go wrong in a session: failures of the transport, which are
//! handed to the caller as values, and faults, which mean that the session
//! was used against its rules and has to be given up.

use vstd::prelude::*;
use vstd::string::StringExecFns;

verus! {

/// A failure reported by the transport, or by the session on its behalf.
#[derive(Debug)]
pub struct ButtplugClientConnectorError {
    pub message: String,
}

impl ButtplugClientConnectorError {
    /// An error that carries `msg`.
    pub fn new(msg: &str) -> (error: Self)
        ensures
            error.message@ == msg@,
    {
        ButtplugClientConnectorError { message: String::from_str(msg) }
    }
}

impl Clone for ButtplugClientConnectorError {
    fn clone(&self) -> (copy: Self)
        ensures
            copy == *self,
    {
        ButtplugClientConnectorError { message: self.message.clone() }
    }
}

/// A misuse of the session that must end it.
#[derive(Debug, Clone, Copy, PartialEq, Eq, Structural)]
pub enum ButtplugClientFault {
    /// A reply was offered to a future that already holds one.
    ReplyAlreadySet,
    /// The lock of a shared future state is poisoned.
    LockPoisoned,
    /// The connector delivered a message that is no device notification.
    UnhandledConnectorMessage,
    /// The connector reported the removal of a device that is not registered.
    UnknownDevice,
    /// The client sent a command that a running session does not take.
    UnhandledClientMessage,
    /// The queue of device commands was closed under the running session.
    DeviceQueueClosed,
}

impl ButtplugClientFault {
    /// The fault in words.
    pub open spec fn spec_message(&self) -> Seq<char> {
        match self {
            ButtplugClientFault::ReplyAlreadySet =>
                "set_reply_msg called multiple times on the same future."@,
            ButtplugClientFault::LockPoisoned => "The lock of a future state is poisoned."@,
            ButtplugClientFault::UnhandledConnectorMessage =>
                "Got connector message type we don't know how to handle!"@,
            ButtplugClientFault::UnknownDevice => "Got removal of a device that is not registered."@,
            ButtplugClientFault::UnhandledClientMessage => "Client message not handled!"@,
            ButtplugClientFault::DeviceQueueClosed => "We should never get here."@,
        }
    }

    /// The fault in words, for the caller who gives the session up.
    pub fn message(&self) -> (text: &'static str)
        ensures
            text@ == self.spec_message(),
    {
        match self {
            ButtplugClientFault::ReplyAlreadySet =>
                "set_reply_msg called multiple times on the same future.",
            ButtplugClientFault::LockPoisoned => "The lock of a future state is poisoned.",
            ButtplugClientFault::UnhandledConnectorMessage =>
                "Got connector message type we don't know how to handle!",
            ButtplugClientFault::UnknownDevice => "Got removal of a device that is not registered.",
            ButtplugClientFault::UnhandledClientMessage => "Client message not handled!",
            ButtplugClientFault::DeviceQueueClosed => "We should never get here.",
        }
    }
}

/// Either kind of error.
#[derive(Debug)]
pub enum ButtplugClientError {
    ButtplugClientConnectorError(ButtplugClientConnectorError),
    ButtplugClientFault(ButtplugClientFault),
}

} // verus!
